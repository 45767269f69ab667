//! The screen backlight block: the brightness, in percent of the maximum,
//! read from the backlight device's files under `/sys/class/backlight`.
use vstd::prelude::*;
use vstd::string::*;
use crate::decimal::{decimal, int_error_text, parse_u32, parse_u32_spec, to_decimal};
use crate::http::{owned, Handler, Method, RouteSpec};

verus! {

/// `s` without its last character, as `String::pop` leaves it.
pub open spec fn without_last(s: Seq<char>) -> Seq<char> {
    if s.len() > 0 {
        s.drop_last()
    } else {
        s
    }
}

/// The file of the device that `fetch` reads: the attribute `attr`, or the
/// current brightness.
pub fn attr_file<'a>(attr: Option<&'a str>) -> (f: &'a str)
    ensures
        match attr {
            Some(a) => f@ == a@,
            None => f@ == "brightness"@,
        },
{
    match attr {
        Some(a) => a,
        None => "brightness",
    }
}

/// The content of a device file, read as a number: everything but the last
/// character (the newline) in decimal.
pub open spec fn file_value(content: Seq<char>) -> Result<u32, crate::decimal::IntErrorKind> {
    parse_u32_spec(without_last(content))
}

/// Reads the value out of the `content` of the file `attr_file(attr)`. The
/// maximum brightness (`attr` given) is returned as it is; the current
/// brightness (`attr` is `None`) is scaled to percent of `max`.
pub fn fetch(content: &str, attr: Option<&str>, max: u32) -> (r: Result<u32, String>)
    requires
        attr is None && file_value(content@) is Ok ==> max > 0 && file_value(content@)->Ok_0
            * 100 <= u32::MAX,
    ensures
        match file_value(content@) {
            Ok(b) => r == Ok::<u32, String>(
                if attr is None {
                    ((b * 100) / (max as int)) as u32
                } else {
                    b
                },
            ),
            Err(k) => r matches Err(e) && e@ == int_error_text(k),
        },
        attr is None && r is Ok && file_value(content@)->Ok_0 <= max ==> r->Ok_0 <= 100,
{
    let v = crate::text::chars_of(content);
    let n = v.len();
    let digits: &str = if n > 0 {
        content.substring_char(0, n - 1)
    } else {
        content
    };
    assert(digits@ == without_last(content@));
    match parse_u32(digits) {
        Ok(backlight) => {
            if attr.is_none() {
                assert(backlight <= max ==> (backlight * 100) / (max as int) <= 100) by (nonlinear_arith)
                    requires
                        max > 0,
                ;
                Ok(backlight * 100 / max)
            } else {
                Ok(backlight)
            }
        },
        Err(k) => Err(owned(k.description())),
    }
}

/// What `set_brightness_args` passes to `xbacklight` is read back by `fetch`:
/// a device file that holds the decimal text of `brightness`, followed by a
/// newline (or any other last character), has the value `brightness`.
pub proof fn lemma_written_brightness_reads_back(brightness: u32, last: char)
    ensures
        file_value(decimal(brightness as nat).push(last)) == Ok::<u32, crate::decimal::IntErrorKind>(
            brightness,
        ),
{
    assert(without_last(decimal(brightness as nat).push(last)) =~= decimal(brightness as nat));
    crate::decimal::lemma_decimal_round_trip(brightness);
}

/// The backlight device: the first entry of `/sys/class/backlight`, if that
/// could be read; an error when there is none.
pub fn first_device<P, E>(first: Option<Result<P, E>>) -> (r: Result<P, String>)
    ensures
        match first {
            Some(Ok(p)) => r == Ok::<P, String>(p),
            _ => r matches Err(e) && e@ == "no backlight device found"@,
        },
{
    match first {
        Some(Ok(p)) => Ok(p),
        _ => Err(owned("no backlight device found")),
    }
}

/// The brightness that the block shows, read from the shared counter.
pub fn get_info(shared: usize) -> (b: u32)
    ensures
        b == shared as u32,
{
    shared as u32
}

/// The arguments of the `xbacklight` command that sets the brightness to
/// `brightness` percent.
pub fn set_brightness_args(brightness: u32) -> (args: Vec<String>)
    ensures
        args@.len() == 2,
        args@[0]@ == "-set"@,
        args@[1]@ == decimal(brightness as nat),
{
    let mut args: Vec<String> = Vec::new();
    args.push(owned("-set"));
    args.push(to_decimal(brightness));
    args
}

/// The routes of this module, as (method, path, rank, handler), in mounting order.
pub open spec fn route_table() -> Seq<(Method, Seq<char>, Option<isize>, Handler)> {
    seq![
        (Method::Get, "/"@, None::<isize>, Handler::GetBrightness),
        (Method::Get, "/<brightness>"@, None::<isize>, Handler::SetBrightness),
    ]
}

/// The routes of the block.
pub fn routes() -> (r: Vec<RouteSpec>)
    ensures
        r@.map_values(|s: RouteSpec| s@) == route_table(),
{
    let r = vec![
        RouteSpec { method: Method::Get, path: "/", rank: None, handler: Handler::GetBrightness },
        RouteSpec {
            method: Method::Get,
            path: "/<brightness>",
            rank: None,
            handler: Handler::SetBrightness,
        },
    ];
    assert(r@.map_values(|s: RouteSpec| s@) =~= route_table());
    r
}

} // verus!
