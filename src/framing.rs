//! Message framing: line terminators, multi-part composition, datagram decoding
//! and the splitting of outgoing payloads into datagram-sized chunks.
use vstd::prelude::*;
use vstd::slice::*;
use vstd::string::*;
use vstd::utf8::*;

verus! {

/// Largest payload handed to one datagram send, and the size of the receive buffer.
pub const MAX_DATAGRAM_BYTES: usize = 8192;

/// `m` with one `'\n'` appended, unless it already ends in one.
pub open spec fn with_newline(m: Seq<char>) -> Seq<char> {
    if m.len() > 0 && m.last() == '\n' {
        m
    } else {
        m.push('\n')
    }
}

/// `m` without one trailing `"\r\n"` or, failing that, one trailing `'\n'`.
pub open spec fn strip_terminator(m: Seq<char>) -> Seq<char> {
    if m.len() >= 2 && m[m.len() - 2] == '\r' && m[m.len() - 1] == '\n' {
        m.subrange(0, m.len() - 2)
    } else if m.len() >= 1 && m[m.len() - 1] == '\n' {
        m.subrange(0, m.len() - 1)
    } else {
        m
    }
}

/// Appends a trailing newline to `message` when it does not end in one.
pub fn ensure_trailing_newline(message: String) -> (r: String)
    ensures
        r@ == with_newline(message@),
{
    let n = message.as_str().unicode_len();
    if n > 0 && message.as_str().get_char(n - 1) == '\n' {
        message
    } else {
        proof {
            reveal_strlit("\n");
        }
        let r = message.concat("\n");
        assert(r@ =~= message@.push('\n'));
        r
    }
}

/// Removes one trailing `"\r\n"`, or else one trailing `'\n'`, from `text`.
pub fn strip_line_terminator(text: &str) -> (r: String)
    ensures
        r@ == strip_terminator(text@),
{
    let n = text.unicode_len();
    if n >= 2 && text.get_char(n - 2) == '\r' && text.get_char(n - 1) == '\n' {
        String::from_str(text.substring_char(0, n - 2))
    } else if n >= 1 && text.get_char(n - 1) == '\n' {
        String::from_str(text.substring_char(0, n - 1))
    } else {
        String::from_str(text)
    }
}

/// The text that stands for a message part that is not valid UTF-8.
pub open spec fn invalid_part_text() -> Seq<char> {
    seq!['i', 'n', 'v', 'a', 'l', 'i', 'd', ' ', 't', 'e', 'x', 't']
}

/// The text of one received part: its own text, or the placeholder when it did not decode.
pub open spec fn part_text(p: Option<String>) -> Seq<char> {
    match p {
        Some(s) => s@,
        None => invalid_part_text(),
    }
}

/// The texts of `parts` joined with single spaces, in order.
pub open spec fn joined_parts(parts: Seq<Option<String>>) -> Seq<char>
    decreases parts.len(),
{
    if parts.len() == 0 {
        Seq::empty()
    } else if parts.len() == 1 {
        part_text(parts[0])
    } else {
        joined_parts(parts.drop_last()) + seq![' '] + part_text(parts.last())
    }
}

/// Joins the parts of one multi-part message with single spaces; a part that did
/// not decode as text stands as `"invalid text"`.
pub fn compose_parts(parts: &Vec<Option<String>>) -> (r: String)
    ensures
        r@ == joined_parts(parts@),
{
    let mut r = String::new();
    let mut i: usize = 0;
    while i < parts.len()
        invariant
            i <= parts@.len(),
            r@ == joined_parts(parts@.subrange(0, i as int)),
        decreases parts@.len() - i,
    {
        let ghost before = r@;
        if i > 0 {
            r.append(" ");
        }
        let ghost sep = r@;
        match &parts[i] {
            Some(s) => r.append(s.as_str()),
            None => r.append("invalid text"),
        }
        proof {
            let pre = parts@.subrange(0, i as int);
            let next = parts@.subrange(0, i + 1);
            assert(next.drop_last() =~= pre);
            assert(next.last() == parts@[i as int]);
            reveal_strlit(" ");
            reveal_strlit("invalid text");
            assert(" "@ =~= seq![' ']);
            assert("invalid text"@ =~= invalid_part_text());
            assert(r@ == sep + part_text(parts@[i as int]));
            if i == 0 {
                assert(before =~= Seq::<char>::empty());
                assert(r@ =~= joined_parts(next));
            } else {
                assert(sep == before + seq![' ']);
                assert(r@ =~= joined_parts(next));
            }
        }
        i = i + 1;
    }
    assert(parts@.subrange(0, parts@.len() as int) =~= parts@);
    r
}

/// Stripping removes exactly one line terminator: a trailing `"\r\n"`, or else a trailing
/// `'\n'`; a text that ends in neither is left as it is. So a line framed for sending
/// and stripped on receipt is the line again.
pub proof fn lemma_strip_single_terminator(t: Seq<char>)
    ensures
        strip_terminator(t + seq!['\r', '\n']) == t,
        !(t.len() > 0 && t.last() == '\r') ==> strip_terminator(t.push('\n')) == t,
        !(t.len() > 0 && t.last() == '\n') ==> strip_terminator(t) == t,
        !(t.len() > 0 && (t.last() == '\n' || t.last() == '\r')) ==> strip_terminator(
            with_newline(t),
        ) == t,
{
    let crlf = t + seq!['\r', '\n'];
    assert(crlf.subrange(0, crlf.len() - 2) =~= t);
    let lf = t.push('\n');
    assert(lf.subrange(0, lf.len() - 1) =~= t);
}

/// What `String::from_utf8_lossy` makes of `bytes`: each invalid sequence
/// becomes U+FFFD, the rest decodes as UTF-8.
pub uninterp spec fn lossy_utf8(bytes: Seq<u8>) -> Seq<char>;

/// Relies on `String::from_utf8_lossy`, which never fails, decodes a valid
/// UTF-8 buffer as exactly its characters, and so an empty buffer as the empty string.
#[verifier::external_body]
fn decode_lossy(bytes: &[u8]) -> (r: String)
    ensures
        r@ == lossy_utf8(bytes@),
        valid_utf8(bytes@) ==> r@ == decode_utf8(bytes@),
        bytes@.len() == 0 ==> r@.len() == 0,
{
    String::from_utf8_lossy(bytes).into_owned()
}

/// The text of a received datagram, or `None` for an empty one, which carries no message.
pub open spec fn datagram_text(payload: Seq<u8>) -> Option<Seq<char>> {
    if payload.len() == 0 {
        None
    } else {
        Some(lossy_utf8(payload))
    }
}

/// Decodes a received datagram, invalid UTF-8 replaced rather than refused;
/// an empty datagram gives `None`.
pub fn decode_datagram(payload: &[u8]) -> (r: Option<String>)
    ensures
        r is None <==> payload@.len() == 0,
        r matches Some(t) ==> Some(t@) == datagram_text(payload@),
        valid_utf8(payload@) ==> (r matches Some(t) ==> t@ == decode_utf8(payload@)),
{
    if payload.len() == 0 {
        None
    } else {
        Some(decode_lossy(payload))
    }
}

/// `p` cut, from the front, into pieces of `MAX_DATAGRAM_BYTES` bytes, the last one shorter
/// when the length is not a multiple of it; no pieces for an empty `p`.
pub open spec fn datagram_chunks(p: Seq<u8>) -> Seq<Seq<u8>>
    decreases p.len(),
{
    if p.len() == 0 {
        Seq::empty()
    } else if p.len() <= 8192 {
        seq![p]
    } else {
        seq![p.subrange(0, 8192)] + datagram_chunks(p.subrange(8192, p.len() as int))
    }
}

/// Cuts `payload` into the successive pieces, each at most `MAX_DATAGRAM_BYTES` long,
/// that are sent as one datagram each.
pub fn split_datagrams(payload: &[u8]) -> (r: Vec<Vec<u8>>)
    ensures
        r@.map_values(|c: Vec<u8>| c@) == datagram_chunks(payload@),
{
    let mut r: Vec<Vec<u8>> = Vec::new();
    let mut offset: usize = 0;
    let len = payload.len();
    assert(payload@.subrange(0, len as int) =~= payload@);
    assert(r@.map_values(|c: Vec<u8>| c@) =~= Seq::<Seq<u8>>::empty());
    while offset < len
        invariant
            len == payload@.len(),
            offset <= len,
            r@.map_values(|c: Vec<u8>| c@) + datagram_chunks(payload@.subrange(offset as int, len as int))
                == datagram_chunks(payload@),
        decreases len - offset,
    {
        let end: usize = if len - offset > MAX_DATAGRAM_BYTES {
            offset + MAX_DATAGRAM_BYTES
        } else {
            len
        };
        let chunk = slice_to_vec(slice_subrange(payload, offset, end));
        proof {
            let rest = payload@.subrange(offset as int, len as int);
            let tail = payload@.subrange(end as int, len as int);
            if rest.len() > 8192 {
                assert(rest.subrange(0, 8192) =~= chunk@);
                assert(rest.subrange(8192, rest.len() as int) =~= tail);
                assert(datagram_chunks(rest) == seq![chunk@] + datagram_chunks(tail));
            } else {
                assert(rest =~= chunk@);
                assert(tail =~= Seq::<u8>::empty());
                assert(datagram_chunks(rest) == seq![chunk@]);
                assert(datagram_chunks(tail) =~= Seq::<Seq<u8>>::empty());
                assert(datagram_chunks(rest) =~= seq![chunk@] + datagram_chunks(tail));
            }
            r@.lemma_push_map_commute(|c: Vec<u8>| c@, chunk);
        }
        let ghost prev = r@.map_values(|c: Vec<u8>| c@);
        r.push(chunk);
        proof {
            let tail = payload@.subrange(end as int, len as int);
            assert(r@.map_values(|c: Vec<u8>| c@) == prev.push(chunk@));
            assert(prev.push(chunk@) + datagram_chunks(tail) =~= prev + (seq![chunk@] + datagram_chunks(tail)));
        }
        offset = end;
    }
    assert(payload@.subrange(len as int, len as int) =~= Seq::<u8>::empty());
    assert(r@.map_values(|c: Vec<u8>| c@) + Seq::<Seq<u8>>::empty() =~= r@.map_values(|c: Vec<u8>| c@));
    r
}

/// Taken in order, the chunks of a payload put it back together byte for byte;
/// there are as many as whole or partial blocks of `MAX_DATAGRAM_BYTES` bytes,
/// every one is non-empty and none is longer than that, and all but the last are full.
pub proof fn lemma_datagram_chunks_reassemble(p: Seq<u8>)
    ensures
        datagram_chunks(p).flatten() == p,
        datagram_chunks(p).len() == (p.len() + 8191) / 8192,
        forall|i: int|
            0 <= i < datagram_chunks(p).len() ==> 0 < #[trigger] datagram_chunks(p)[i].len() <= 8192,
        forall|i: int|
            0 <= i < datagram_chunks(p).len() - 1 ==> #[trigger] datagram_chunks(p)[i].len() == 8192,
    decreases p.len(),
{
    let c = datagram_chunks(p);
    if p.len() == 0 {
        assert(c.flatten() =~= p);
    } else if p.len() <= 8192 {
        assert(c.drop_first() =~= Seq::<Seq<u8>>::empty());
        assert(c.drop_first().flatten() =~= Seq::<u8>::empty());
        assert(c.first() == p);
        assert(c.flatten() =~= p);
    } else {
        let head = p.subrange(0, 8192);
        let tail = p.subrange(8192, p.len() as int);
        lemma_datagram_chunks_reassemble(tail);
        let rest = datagram_chunks(tail);
        assert(c.first() == head);
        assert(c.drop_first() =~= rest);
        assert(c.flatten() == head + rest.flatten());
        assert(head + tail =~= p);
        assert forall|i: int| 0 <= i < c.len() implies 0 < #[trigger] c[i].len() <= 8192 by {
            if i > 0 {
                assert(c[i] == rest[i - 1]);
            }
        }
        assert forall|i: int| 0 <= i < c.len() - 1 implies #[trigger] c[i].len() == 8192 by {
            if i > 0 {
                assert(c[i] == rest[i - 1]);
            }
        }
    }
}

} // verus!
