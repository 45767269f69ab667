//! The wifi block: whether the wireless interface is up, and if so the
//! network's SSID and the interface's IPv4 address.
use vstd::prelude::*;
use vstd::string::*;
use vstd::utf8::{decode_utf8, valid_utf8};
use crate::http::{owned, Handler, Method, RouteSpec};
use crate::text::{
    is_ws, chars_of, newline_pieces, newline_stop, piece_end_at, span_words, string_from_utf8,
    word_spans, words,
};
use super::backlight::without_last;

verus! {

/// The wireless interface that the block watches.
pub fn interface() -> (s: &'static str)
    ensures
        s@ == "wlp3s0"@,
{
    "wlp3s0"
}

/// The file that holds the interface's operational state.
pub fn operstate_path() -> (s: &'static str)
    ensures
        s@ == "/sys/class/net/wlp3s0/operstate"@,
{
    "/sys/class/net/wlp3s0/operstate"
}

/// The shell command that prints the SSID of the network that the interface
/// is connected to.
pub fn ssid_command() -> (s: String)
    ensures
        s@ == "iw dev "@ + "wlp3s0"@ + " link | grep \"^\\sSSID:\" | sed \"s/^\\sSSID:\\s//g\""@,
{
    let mut s = owned("iw dev ");
    s.append(interface());
    s.append(" link | grep \"^\\sSSID:\" | sed \"s/^\\sSSID:\\s//g\"");
    s
}

/// Whether the interface is up, given the content of its operstate file
/// (`None` when the file does not exist): the content, but for its last
/// character (the newline), is `up`.
pub fn is_up(operstate: Option<&str>) -> (up: bool)
    ensures
        up == (operstate matches Some(c) && without_last(c@) == seq!['u', 'p']),
{
    match operstate {
        None => false,
        Some(content) => {
            let v = chars_of(content);
            let up = v.len() == 3 && v[0] == 'u' && v[1] == 'p';
            assert(up ==> without_last(v@) =~= seq!['u', 'p']);
            assert(without_last(v@) == seq!['u', 'p'] ==> v@.len() == 3 && v@[0] == 'u' && v@[1]
                == 'p') by {
                if without_last(v@) == seq!['u', 'p'] {
                    assert(seq!['u', 'p'].len() == 2);
                    if v@.len() == 0 {
                        assert(without_last(v@).len() == 0);
                    }
                    assert(v@.len() == 3);
                    assert(v@.drop_last()[0] == v@[0]);
                    assert(v@.drop_last()[1] == v@[1]);
                }
            }
            up
        },
    }
}

/// The SSID, given what the SSID command printed: empty when it printed
/// nothing, and otherwise its output but for the last byte (the newline),
/// which must be UTF-8.
pub fn get_ssid(out: Vec<u8>) -> (r: Result<String, String>)
    ensures
        out@.len() == 0 ==> (r matches Ok(s) && s@.len() == 0),
        out@.len() > 0 ==> match r {
            Ok(s) => valid_utf8(out@.drop_last()) && s@ == decode_utf8(out@.drop_last()),
            Err(e) => !valid_utf8(out@.drop_last()) && e@ == "invalid utf-8"@,
        },
{
    if out.len() == 0 {
        return Ok(String::new());
    }
    let mut out = out;
    let _ = out.pop();
    match string_from_utf8(out) {
        Some(s) => Ok(s),
        None => Err(owned("invalid utf-8")),
    }
}

/// The address in the listing of `ip -o address`: the first line whose second
/// word is the interface `iface` gives its fourth word, the address; there is
/// none when no line names the interface, or when that line has fewer than
/// four words.
pub open spec fn address_in(lines: Seq<Seq<char>>, iface: Seq<char>) -> Option<Seq<char>>
    decreases lines.len(),
{
    if lines.len() == 0 {
        None
    } else {
        let w = words(lines[0]);
        if w.len() > 1 && w[1] == iface {
            if w.len() > 3 {
                Some(w[3])
            } else {
                None
            }
        } else {
            address_in(lines.drop_first(), iface)
        }
    }
}

/// A line that does not name the interface as its second word is passed
/// over: the address is the same as in the lines after it.
pub proof fn lemma_address_passes_other_lines(line: Seq<char>, rest: Seq<Seq<char>>, iface: Seq<char>)
    requires
        !(words(line).len() > 1 && words(line)[1] == iface),
    ensures
        address_in(seq![line] + rest, iface) == address_in(rest, iface),
{
    assert((seq![line] + rest)[0] == line);
    assert((seq![line] + rest).drop_first() =~= rest);
}

/// The first line that names the interface as its second word decides:
/// its fourth word is the address, or there is none when it has fewer than
/// four words, whatever lines follow.
pub proof fn lemma_address_from_naming_line(line: Seq<char>, rest: Seq<Seq<char>>, iface: Seq<char>)
    requires
        words(line).len() > 1 && words(line)[1] == iface,
    ensures
        address_in(seq![line] + rest, iface) == (if words(line).len() > 3 {
            Some(words(line)[3])
        } else {
            None
        }),
{
    assert((seq![line] + rest)[0] == line);
}

/// In the text of the listing: a first line (without newline) that does not
/// name the interface changes nothing, so the address is found anywhere in
/// the listing; a first line that names it gives its fourth word.
pub proof fn lemma_address_in_listing(line: Seq<char>, rest: Seq<char>, iface: Seq<char>)
    requires
        forall|i: int| 0 <= i < line.len() ==> line[i] != '\n',
    ensures
        !(words(line).len() > 1 && words(line)[1] == iface) ==> address_in(
            newline_pieces(line.push('\n') + rest),
            iface,
        ) == address_in(newline_pieces(rest), iface),
        words(line).len() > 3 && words(line)[1] == iface ==> address_in(
            newline_pieces(line.push('\n') + rest),
            iface,
        ) == Some(words(line)[3]),
{
    crate::text::lemma_pieces_of_line_then_rest(line, rest);
    if words(line).len() > 1 && words(line)[1] == iface {
        lemma_address_from_naming_line(line, newline_pieces(rest), iface);
    } else {
        lemma_address_passes_other_lines(line, newline_pieces(rest), iface);
    }
}

/// Whether `v[a..b]` equals `w`.
fn same_chars(v: &Vec<char>, a: usize, b: usize, w: &Vec<char>) -> (eq: bool)
    requires
        a <= b <= v@.len(),
    ensures
        eq == (v@.subrange(a as int, b as int) == w@),
{
    if b - a != w.len() {
        return false;
    }
    let mut k: usize = 0;
    while k < w.len()
        invariant
            a <= b <= v@.len(),
            b - a == w@.len(),
            k <= w@.len(),
            forall|m: int| 0 <= m < k ==> v@[a + m] == #[trigger] w@[m],
        decreases w@.len() - k,
    {
        if v[a + k] != w[k] {
            assert(v@.subrange(a as int, b as int)[k as int] != w@[k as int]);
            return false;
        }
        k = k + 1;
    }
    assert(v@.subrange(a as int, b as int) =~= w@);
    true
}

/// The address of the interface `iface` in the text `out` of `ip -o address`.
pub fn find_address(out: &str, iface: &str) -> (r: Option<String>)
    ensures
        r is Some <==> address_in(newline_pieces(out@), iface@) is Some,
        r matches Some(a) ==> a@ == address_in(newline_pieces(out@), iface@)->0,
        r matches Some(a) ==> a@.len() > 0 && forall|i: int|
            0 <= i < a@.len() ==> !is_ws(#[trigger] a@[i]),
{
    let v = chars_of(out);
    let w = chars_of(iface);
    let len = v.len();
    let mut pos: usize = 0;
    assert(v@.subrange(0, len as int) =~= v@);
    while pos < len
        invariant
            pos <= len == v@.len(),
            v@ == out@,
            w@ == iface@,
            address_in(newline_pieces(v@), w@) == address_in(
                newline_pieces(v@.subrange(pos as int, len as int)),
                w@,
            ),
        decreases len - pos,
    {
        let e = piece_end_at(&v, pos);
        let ghost s = v@.subrange(pos as int, len as int);
        let ghost line = v@.subrange(pos as int, e as int);
        proof {
            crate::text::lemma_run_len_bound(s, newline_stop());
            assert(s.take(e - pos) =~= line);
            if e < len {
                assert(s.skip(e - pos + 1) =~= v@.subrange(e + 1, len as int));
                assert(newline_pieces(s) == seq![line] + newline_pieces(
                    v@.subrange(e + 1, len as int),
                ));
                assert((seq![line] + newline_pieces(v@.subrange(e + 1, len as int)))[0] == line);
                assert((seq![line] + newline_pieces(
                    v@.subrange(e + 1, len as int),
                )).drop_first() =~= newline_pieces(v@.subrange(e + 1, len as int)));
            } else {
                assert(s =~= line);
                assert(newline_pieces(s) == seq![line]);
                assert(seq![line].drop_first() =~= Seq::<Seq<char>>::empty());
            }
        }
        let spans = word_spans(&v, pos, e);
        assert(spans@.len() == words(line).len());
        if spans.len() > 1 && same_chars(&v, spans[1].0, spans[1].1, &w) {
            assert(words(line)[1] == v@.subrange(spans@[1].0 as int, spans@[1].1 as int));
            if spans.len() > 3 {
                let (a, b) = spans[3];
                assert(words(line)[3] == v@.subrange(a as int, b as int));
                proof {
                    crate::text::lemma_words_are_words(line);
                    assert(words(line)[3].len() > 0);
                }
                return Some(owned(out.substring_char(a, b)));
            } else {
                return None;
            }
        }
        proof {
            if spans@.len() > 1 {
                assert(words(line)[1] == v@.subrange(spans@[1].0 as int, spans@[1].1 as int));
            }
        }
        if e == len {
            proof {
                let pieces = newline_pieces(v@.subrange(pos as int, len as int));
                assert(pieces == seq![line]);
                assert(pieces.drop_first() =~= Seq::<Seq<char>>::empty());
                assert(address_in(pieces, w@) == address_in(pieces.drop_first(), w@));
            }
            return None;
        }
        pos = e + 1;
    }
    assert(v@.subrange(pos as int, len as int) =~= Seq::<char>::empty());
    None
}

/// The interface's address, given the output of `ip -f inet -o address`;
/// an error when that output is no UTF-8, or holds no address of the
/// interface.
pub fn get_ip(out: Vec<u8>) -> (r: Result<String, String>)
    ensures
        !valid_utf8(out@) ==> (r matches Err(e) && e@ == "invalid utf-8"@),
        valid_utf8(out@) ==> match address_in(newline_pieces(decode_utf8(out@)), "wlp3s0"@) {
            Some(a) => r matches Ok(s) && s@ == a && s@.len() > 0,
            None => r matches Err(e) && e@ == "Error parsing wifi adress"@,
        },
{
    let text = match string_from_utf8(out) {
        Some(s) => s,
        None => return Err(owned("invalid utf-8")),
    };
    match find_address(text.as_str(), interface()) {
        Some(a) => Ok(a),
        None => Err(owned("Error parsing wifi adress")),
    }
}

/// What the wifi block shows: the SSID and the address.
#[derive(Clone, Debug)]
pub struct WifiData {
    pub ssid: String,
    pub ip: String,
}

/// What the block's route answers, given the shared state: the connection
/// when the interface is up, and an error otherwise.
pub fn get_connection(state: Option<WifiData>) -> (r: Result<WifiData, String>)
    ensures
        match state {
            Some(d) => r == Ok::<WifiData, String>(d),
            None => r matches Err(e) && e@ == "couldn't retreive shared data"@,
        },
{
    match state {
        Some(d) => Ok(d),
        None => Err(owned("couldn't retreive shared data")),
    }
}

/// Where reading the block's state stands after the operstate file was read.
#[derive(Debug)]
pub enum StatusStep {
    /// The interface is up: the SSID and the address are to be read next.
    QueryConnection,
    /// The state is known.
    Finished(Option<WifiData>),
}

/// The next step of reading the block's state, given whether the interface
/// is up: only an interface that is up has an SSID and an address to read.
pub fn status_after_operstate(up: bool) -> (s: StatusStep)
    ensures
        up ==> s is QueryConnection,
        !up ==> s == StatusStep::Finished(None),
{
    if up {
        StatusStep::QueryConnection
    } else {
        StatusStep::Finished(None)
    }
}

/// The state of the block once the SSID and the address of an interface
/// that is up were read.
pub fn status_after_connection(ssid: String, ip: String) -> (s: Option<WifiData>)
    ensures
        s == Some(WifiData { ssid, ip }),
{
    Some(WifiData { ssid, ip })
}

/// The routes of this module, as (method, path, rank, handler), in mounting order.
pub open spec fn route_table() -> Seq<(Method, Seq<char>, Option<isize>, Handler)> {
    seq![
        (Method::Get, "/"@, None::<isize>, Handler::GetConnection),
    ]
}

/// The routes of the block.
pub fn routes() -> (r: Vec<RouteSpec>)
    ensures
        r@.map_values(|s: RouteSpec| s@) == route_table(),
{
    let r = vec![
        RouteSpec { method: Method::Get, path: "/", rank: None, handler: Handler::GetConnection },
    ];
    assert(r@.map_values(|s: RouteSpec| s@) =~= route_table());
    r
}

} // verus!
