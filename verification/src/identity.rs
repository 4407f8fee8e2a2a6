//! Matrix user identifiers: the owner's handle and the localpart of the bot's own ID.
use matrix_sdk::ruma::UserId;
use vstd::prelude::*;

verus! {

/// Whether ruma's user-ID grammar (`UserId::parse`) accepts the text: a leading
/// `@`, a `:`, no NUL or `:` in the localpart before it, and a valid server name
/// after the first `:`. Ruma can also limit the ID to 255 bytes; matrix-sdk turns
/// on ruma's `compat-arbitrary-length-ids`, which drops that limit.
pub uninterp spec fn ruma_accepts_user_id(text: Seq<char>) -> bool;

/// Calls `matrix_sdk::ruma::UserId::parse` and hands back the text of the parsed
/// ID. The contract claims that the result is `Some` exactly when ruma's grammar
/// accepts the text, that the parsed ID keeps the text unchanged (ruma stores the
/// string it validated), and that an accepted text starts with `@` and holds a `:`
/// (ruma checks both right after its length check, which matrix-sdk turns off).
#[verifier::external_body]
fn parse_user_id(text: &str) -> (id: Option<String>)
    ensures
        id is Some <==> ruma_accepts_user_id(text@),
        id matches Some(s) ==> s@ == text@,
        id is Some ==> text@.len() > 0 && text@[0] == '@' && text@.contains(':'),
{
    UserId::parse(text).ok().map(|id| id.as_str().to_string())
}

/// The owner handle could not be read as a Matrix user ID.
#[derive(Debug, Clone)]
pub struct InvalidOwnerHandle {
    pub handle: String,
}

impl InvalidOwnerHandle {
    /// `Invalid owner handle: <handle>`
    pub fn message(&self) -> (msg: String)
        ensures
            msg@ == "Invalid owner handle: "@ + self.handle@,
    {
        String::from_str("Invalid owner handle: ").concat(self.handle.as_str())
    }
}

/// Reads the configured owner handle as a Matrix user ID, and gives back the ID's
/// text: the handle itself, where ruma accepts it.
pub fn parse_owner_handle(handle: &str) -> (res: Result<String, InvalidOwnerHandle>)
    ensures
        res is Ok <==> ruma_accepts_user_id(handle@),
        res matches Ok(id) ==> id@ == handle@,
        res matches Err(e) ==> e.handle@ == handle@,
{
    match parse_user_id(handle) {
        Some(id) => Ok(id),
        None => Err(InvalidOwnerHandle { handle: String::from_str(handle) }),
    }
}

/// Position of the first `:` in the text, or its length where there is none.
pub open spec fn first_colon(text: Seq<char>) -> int
    decreases text.len(),
{
    if text.len() == 0 {
        0
    } else if text[0] == ':' {
        0
    } else {
        1 + first_colon(text.drop_first())
    }
}

/// The localpart of a user ID: what follows the leading sigil up to the next `:`
/// (`UserId::localpart`, for text that ruma accepted).
pub open spec fn localpart(text: Seq<char>) -> Seq<char> {
    if text.len() == 0 {
        text
    } else {
        text.drop_first().take(first_colon(text.drop_first()))
    }
}

proof fn lemma_first_colon(text: Seq<char>)
    ensures
        0 <= first_colon(text) <= text.len(),
        forall|i: int| 0 <= i < first_colon(text) ==> text[i] != ':',
        first_colon(text) < text.len() ==> text[first_colon(text)] == ':',
    decreases text.len(),
{
    if text.len() > 0 && text[0] != ':' {
        lemma_first_colon(text.drop_first());
        assert forall|i: int| 0 <= i < first_colon(text) implies text[i] != ':' by {
            if i > 0 {
                assert(text[i] == text.drop_first()[i - 1]);
            }
        }
    }
}

/// Returns the localpart of a user ID given as text.
pub fn localpart_of(user_id: &str) -> (part: String)
    ensures
        part@ == localpart(user_id@),
        !part@.contains(':'),
        user_id@.len() > 0 ==> part@.len() + 1 <= user_id@.len() && part@ == user_id@.subrange(
            1,
            part@.len() as int + 1,
        ),
        user_id@.len() > part@.len() + 1 ==> user_id@[part@.len() as int + 1] == ':',
        user_id@.len() == 0 ==> part@.len() == 0,
{
    let n = user_id.unicode_len();
    if n == 0 {
        proof {
            lemma_localpart_shape(user_id@);
        }
        return String::new();
    }
    let ghost rest = user_id@.drop_first();
    proof {
        lemma_first_colon(rest);
    }
    let mut end: usize = 1;
    while end < n && user_id.get_char(end) != ':'
        invariant
            n == user_id@.len(),
            n > 0,
            rest == user_id@.drop_first(),
            1 <= end <= n,
            end - 1 <= first_colon(rest),
            0 <= first_colon(rest) <= rest.len(),
            forall|i: int| 0 <= i < first_colon(rest) ==> rest[i] != ':',
            first_colon(rest) < rest.len() ==> rest[first_colon(rest)] == ':',
        decreases n - end,
    {
        assert(rest[end - 1] == user_id@[end as int]);
        end = end + 1;
    }
    proof {
        if end < n {
            assert(rest[end - 1] == user_id@[end as int]);
        }
    }
    assert(end - 1 == first_colon(rest));
    let part = String::from_str(user_id.substring_char(1, end));
    assert(part@ =~= localpart(user_id@));
    proof {
        lemma_localpart_shape(user_id@);
    }
    part
}

/// The localpart is the longest stretch without `:` right after the sigil.
pub proof fn lemma_localpart_shape(text: Seq<char>)
    ensures
        !localpart(text).contains(':'),
        text.len() > 0 ==> localpart(text).len() + 1 <= text.len() && localpart(text) == text.subrange(
            1,
            localpart(text).len() as int + 1,
        ),
        text.len() > localpart(text).len() + 1 ==> text[localpart(text).len() as int + 1] == ':',
        text.len() == 0 ==> localpart(text).len() == 0,
{
    if text.len() > 0 {
        let rest = text.drop_first();
        lemma_first_colon(rest);
        let p = localpart(text);
        assert(p =~= text.subrange(1, p.len() as int + 1));
        assert forall|i: int| 0 <= i < p.len() implies p[i] != ':' by {
            assert(p[i] == rest[i]);
        }
        if text.len() > p.len() + 1 {
            assert(text[p.len() as int + 1] == rest[p.len() as int]);
        }
    }
}

proof fn lemma_first_colon_after(l: Seq<char>, s: Seq<char>)
    requires
        !l.contains(':'),
    ensures
        first_colon(l + seq![':'] + s) == l.len(),
    decreases l.len(),
{
    let t = l + seq![':'] + s;
    if l.len() > 0 {
        assert(l[0] != ':') by {
            if l[0] == ':' {
                assert(l.contains(':'));
            }
        }
        assert(!l.drop_first().contains(':')) by {
            if l.drop_first().contains(':') {
                let k = choose|k: int| 0 <= k < l.drop_first().len() && l.drop_first()[k] == ':';
                assert(l[k + 1] == ':');
            }
        }
        lemma_first_colon_after(l.drop_first(), s);
        assert(t.drop_first() =~= l.drop_first() + seq![':'] + s);
    } else {
        assert(t[0] == ':');
    }
}

/// The localpart of `@<l>:<server>` is `l`, whatever its length, for every `l`
/// without a `:` and every server part.
pub proof fn lemma_localpart_of_user_id(l: Seq<char>, server: Seq<char>)
    requires
        !l.contains(':'),
    ensures
        localpart(seq!['@'] + l + seq![':'] + server) == l,
{
    let t = seq!['@'] + l + seq![':'] + server;
    assert(t.drop_first() =~= l + seq![':'] + server);
    lemma_first_colon_after(l, server);
    assert(localpart(t) =~= l);
}

} // verus!
