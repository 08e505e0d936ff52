//! Asset ids: which texts are accepted as UUIDs, and how new ids are made.
use crate::error::{api_error, ApiError, StatusCode};
use vstd::prelude::*;

verus! {

/// A hexadecimal digit, in either case.
pub open spec fn is_hex_digit(c: char) -> bool {
    ('0' <= c && c <= '9') || ('a' <= c && c <= 'f') || ('A' <= c && c <= 'F')
}

/// A hexadecimal digit in lower case.
pub open spec fn is_lower_hex_digit(c: char) -> bool {
    ('0' <= c && c <= '9') || ('a' <= c && c <= 'f')
}

/// The positions of the four hyphens of a hyphenated UUID.
pub open spec fn is_hyphen_position(i: int) -> bool {
    i == 8 || i == 13 || i == 18 || i == 23
}

/// 32 hexadecimal digits and nothing else.
pub open spec fn is_simple_uuid(s: Seq<char>) -> bool {
    &&& s.len() == 32
    &&& forall|i: int| 0 <= i < 32 ==> is_hex_digit(#[trigger] s[i])
}

/// Five groups of 8, 4, 4, 4 and 12 hexadecimal digits joined by hyphens.
pub open spec fn is_hyphenated_uuid(s: Seq<char>) -> bool {
    &&& s.len() == 36
    &&& forall|i: int|
        0 <= i < 36 ==> if is_hyphen_position(i) {
            #[trigger] s[i] == '-'
        } else {
            is_hex_digit(s[i])
        }
}

/// The prefix `urn:uuid:`, its letters in either case.
pub open spec fn is_urn_prefix(p: Seq<char>) -> bool {
    &&& p.len() == 9
    &&& (p[0] == 'u' || p[0] == 'U')
    &&& (p[1] == 'r' || p[1] == 'R')
    &&& (p[2] == 'n' || p[2] == 'N')
    &&& p[3] == ':'
    &&& (p[4] == 'u' || p[4] == 'U')
    &&& (p[5] == 'u' || p[5] == 'U')
    &&& (p[6] == 'i' || p[6] == 'I')
    &&& (p[7] == 'd' || p[7] == 'D')
    &&& p[8] == ':'
}

/// The texts accepted as a UUID: simple, hyphenated, hyphenated in braces,
/// or hyphenated behind a `urn:uuid:` prefix.
pub open spec fn is_uuid_text(s: Seq<char>) -> bool {
    ||| is_simple_uuid(s)
    ||| is_hyphenated_uuid(s)
    ||| (s.len() == 38 && s[0] == '{' && s[37] == '}' && is_hyphenated_uuid(s.subrange(1, 37)))
    ||| (s.len() == 45 && is_urn_prefix(s.subrange(0, 9)) && is_hyphenated_uuid(s.subrange(9, 45)))
}

/// The text of a random (version 4) UUID: hyphenated, lower case, with the
/// version digit `4` and a variant digit of `8`, `9`, `a` or `b`.
pub open spec fn is_v4_uuid_text(s: Seq<char>) -> bool {
    &&& s.len() == 36
    &&& forall|i: int|
        0 <= i < 36 ==> if is_hyphen_position(i) {
            #[trigger] s[i] == '-'
        } else {
            is_lower_hex_digit(s[i])
        }
    &&& s[14] == '4'
    &&& (s[19] == '8' || s[19] == '9' || s[19] == 'a' || s[19] == 'b')
}

/// Whether `s` parses as a UUID, by `uuid::Uuid::try_parse`.
///
/// Trusted: the contract claims that `try_parse` accepts exactly the texts of
/// `is_uuid_text`. Its source decides on the byte length (32, 36, 38 or 45),
/// checks the hyphens, braces or `urn:uuid:` prefix (that one without regard
/// to case) and accepts `0-9`, `a-f`, `A-F` as digits. Every accepted byte is
/// ASCII, so counting characters and counting bytes agree on each accepted text.
#[verifier::external_body]
pub(crate) fn is_uuid(s: &str) -> (ok: bool)
    ensures
        ok == is_uuid_text(s@),
{
    uuid::Uuid::try_parse(s).is_ok()
}

/// A new random id: `uuid::Uuid::new_v4()`, written by its `Display` impl.
///
/// Trusted: the contract claims that the text is hyphenated lower-case
/// hexadecimal with the version and variant digits of a version 4 UUID, as
/// `new_v4` masks them and `Display` writes them. Which id comes out is left
/// unsaid: it is random. The outside source panics when the operating system
/// gives no random bytes; no argument of this function can rule that out.
#[verifier::external_body]
pub(crate) fn new_v4_text() -> (s: String)
    ensures
        is_v4_uuid_text(s@),
{
    uuid::Uuid::new_v4().to_string()
}

/// A version 4 UUID text is a hyphenated UUID text.
pub proof fn lemma_v4_text_is_hyphenated(s: Seq<char>)
    requires
        is_v4_uuid_text(s),
    ensures
        is_hyphenated_uuid(s),
{
    assert forall|i: int| 0 <= i < 36 implies if is_hyphen_position(i) {
        #[trigger] s[i] == '-'
    } else {
        is_hex_digit(s[i])
    } by {
        if !is_hyphen_position(i) {
            assert(is_lower_hex_digit(s[i]));
        }
    }
}

/// Every id that the service makes for a new asset passes its own id check.
pub proof fn lemma_new_ids_are_valid(s: Seq<char>)
    requires
        is_v4_uuid_text(s),
    ensures
        is_uuid_text(s),
{
    lemma_v4_text_is_hyphenated(s);
}

/// What an id names, for the text of the reply that refuses it.
#[derive(Clone, Copy, Debug, PartialEq, Eq, Structural)]
pub enum IdKind {
    Operator,
    Aircraft,
    Vertipad,
    Vertiport,
    AssetGroup,
}

/// The text sent back for an id that is not a UUID.
pub open spec fn invalid_id_text(kind: IdKind) -> Seq<char> {
    match kind {
        IdKind::Operator => "Invalid operator id"@,
        IdKind::Aircraft => "Invalid aircraft id"@,
        IdKind::Vertipad => "Invalid vertipad id"@,
        IdKind::Vertiport => "Invalid vertiport id"@,
        IdKind::AssetGroup => "Invalid asset group id"@,
    }
}

fn invalid_id_message(kind: IdKind) -> (m: String)
    ensures
        m@ == invalid_id_text(kind),
{
    match kind {
        IdKind::Operator => "Invalid operator id".to_owned(),
        IdKind::Aircraft => "Invalid aircraft id".to_owned(),
        IdKind::Vertipad => "Invalid vertipad id".to_owned(),
        IdKind::Vertiport => "Invalid vertiport id".to_owned(),
        IdKind::AssetGroup => "Invalid asset group id".to_owned(),
    }
}

/// Accepts an id that is a UUID; refuses any other with 400 and a text that
/// names what the id was for.
pub fn check_id(id: &str, kind: IdKind) -> (r: Result<(), ApiError>)
    ensures
        r is Ok <==> is_uuid_text(id@),
        r matches Err(e) ==> e.is(StatusCode::BadRequest, invalid_id_text(kind)),
{
    if is_uuid(id) {
        Ok(())
    } else {
        Err(api_error(StatusCode::BadRequest, invalid_id_message(kind)))
    }
}


/// A text accepted as a UUID has 32, 36, 38 or 45 characters, all ASCII.
pub proof fn lemma_uuid_text_shape(s: Seq<char>)
    requires
        is_uuid_text(s),
    ensures
        s.len() == 32 || s.len() == 36 || s.len() == 38 || s.len() == 45,
        forall|i: int| 0 <= i < s.len() ==> #[trigger] s[i] <= '\u{7f}',
{
    if is_simple_uuid(s) {
        assert forall|i: int| 0 <= i < s.len() implies #[trigger] s[i] <= '\u{7f}' by {
            assert(is_hex_digit(s[i]));
        }
    } else if is_hyphenated_uuid(s) {
        assert forall|i: int| 0 <= i < s.len() implies #[trigger] s[i] <= '\u{7f}' by {
            if !is_hyphen_position(i) {
                assert(is_hex_digit(s[i]));
            }
        }
    } else if s.len() == 38 {
        let h = s.subrange(1, 37);
        assert forall|i: int| 0 <= i < s.len() implies #[trigger] s[i] <= '\u{7f}' by {
            if 1 <= i < 37 {
                assert(h[i - 1] == s[i]);
                if !is_hyphen_position(i - 1) {
                    assert(is_hex_digit(h[i - 1]));
                }
            }
        }
    } else {
        let p = s.subrange(0, 9);
        let h = s.subrange(9, 45);
        assert forall|i: int| 0 <= i < s.len() implies #[trigger] s[i] <= '\u{7f}' by {
            if i < 9 {
                assert(p[i] == s[i]);
            } else {
                assert(h[i - 9] == s[i]);
                if !is_hyphen_position(i - 9) {
                    assert(is_hex_digit(h[i - 9]));
                }
            }
        }
    }
}

/// Every hyphenated UUID text, and every text of 32 hexadecimal digits, is
/// accepted, whatever the case of its letters; its braced and `urn:uuid:`
/// forms are accepted too.
pub proof fn lemma_uuid_forms_accepted(h: Seq<char>, d: Seq<char>)
    requires
        h.len() == 36,
        forall|i: int| 0 <= i < 36 ==> if is_hyphen_position(i) {
            #[trigger] h[i] == '-'
        } else {
            is_hex_digit(h[i])
        },
        d.len() == 32,
        forall|i: int| 0 <= i < 32 ==> is_hex_digit(#[trigger] d[i]),
    ensures
        is_uuid_text(h),
        is_uuid_text(d),
        is_uuid_text(seq!['{'] + h + seq!['}']),
        is_uuid_text("urn:uuid:"@ + h),
        is_uuid_text("URN:UUID:"@ + h),
{
    let b = seq!['{'] + h + seq!['}'];
    assert(b.subrange(1, 37) =~= h);
    reveal_strlit("urn:uuid:");
    reveal_strlit("URN:UUID:");
    let u = "urn:uuid:"@ + h;
    assert(u.subrange(9, 45) =~= h);
    let v = "URN:UUID:"@ + h;
    assert(v.subrange(9, 45) =~= h);
}

} // verus!
