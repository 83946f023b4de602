//! Who is calling: the session token in an `Authorization` header, and the
//! account that it names.

use vstd::prelude::*;
use crate::config::Config;
use crate::error::{text_outcome, ErrorView, ServiceError};
use crate::request::Claims;
use crate::secret::push_char;
use crate::session::{invalid_token, parse};
use crate::store::{lookup, CredentialStore, KeyKind, UserView};
use crate::two_factor::user_not_found;

verus! {

/// A character that Unicode classes as white space.
pub open spec fn is_whitespace(c: char) -> bool {
    let n = c as u32;
    ||| 0x09 <= n <= 0x0D
    ||| n == 0x20
    ||| n == 0x85
    ||| n == 0xA0
    ||| n == 0x1680
    ||| 0x2000 <= n <= 0x200A
    ||| n == 0x2028
    ||| n == 0x2029
    ||| n == 0x202F
    ||| n == 0x205F
    ||| n == 0x3000
}

/// The words of a text: its longest runs of characters that are not white
/// space, from left to right. The definition reads the text character by
/// character: white space adds nothing, a character after another one of a
/// word lengthens the last word, and any other character starts a word.
pub open spec fn words(s: Seq<char>) -> Seq<Seq<char>>
    decreases s.len(),
{
    if s.len() == 0 {
        Seq::empty()
    } else {
        let before = words(s.drop_last());
        let c = s.last();
        if is_whitespace(c) {
            before
        } else if s.len() >= 2 && !is_whitespace(s[s.len() - 2]) {
            before.drop_last().push(before.last().push(c))
        } else {
            before.push(seq![c])
        }
    }
}

/// A word: at least one character, none of them white space.
pub open spec fn is_word(w: Seq<char>) -> bool {
    &&& w.len() > 0
    &&& forall|j: int| 0 <= j < w.len() ==> !is_whitespace(#[trigger] w[j])
}

/// Every word of a text is one, a text that ends in a character of a word
/// has a last word, and that word ends in that character.
pub proof fn lemma_words_are_words(s: Seq<char>)
    ensures
        forall|k: int| 0 <= k < words(s).len() ==> is_word(#[trigger] words(s)[k]),
        s.len() > 0 && !is_whitespace(s.last()) ==> words(s).len() > 0 && words(s).last().last()
            == s.last(),
    decreases s.len(),
{
    if s.len() > 0 {
        let before = words(s.drop_last());
        let c = s.last();
        lemma_words_are_words(s.drop_last());
        if !is_whitespace(c) {
            if s.len() >= 2 && !is_whitespace(s[s.len() - 2]) {
                assert(s.drop_last().last() == s[s.len() - 2]);
                let longer = before.last().push(c);
                assert(is_word(before.last()));
                assert forall|j: int| 0 <= j < longer.len() implies !is_whitespace(
                    #[trigger] longer[j],
                ) by {
                    if j < before.last().len() {
                        assert(longer[j] == before.last()[j]);
                    }
                }
                assert(is_word(longer));
            } else {
                assert(is_word(seq![c]));
            }
        }
    }
}

/// The failure of a call without the header.
pub open spec fn no_authorization_header() -> ErrorView {
    ErrorView::Unauthorized("No authorization header"@)
}

/// The failure of a call whose header is not `Bearer` and a token.
pub open spec fn invalid_header_format() -> ErrorView {
    ErrorView::Unauthorized("Invalid authorization header format"@)
}

/// The token that a header carries: the header must be there and consist
/// of exactly two words, the first of them `Bearer`; the second is the
/// token.
pub open spec fn bearer_of(header: Option<Seq<char>>) -> Result<Seq<char>, ErrorView> {
    match header {
        None => Err(no_authorization_header()),
        Some(text) => if words(text).len() == 2 && words(text)[0] == "Bearer"@ {
            Ok(words(text)[1])
        } else {
            Err(invalid_header_format())
        },
    }
}

/// The address and the name of the account that a session speaks for, or
/// the failure where no account has the name.
pub open spec fn session_user(
    s: Seq<UserView>,
    sub: Seq<char>,
) -> Result<(Seq<char>, Seq<char>), ErrorView> {
    match lookup(s, KeyKind::Username, sub) {
        Some(i) => Ok((s[i].email, sub)),
        None => Err(user_not_found()),
    }
}

/// What a `Result<(String, String), ServiceError>` says, over views.
pub open spec fn pair_outcome(
    r: Result<(String, String), ServiceError>,
) -> Result<(Seq<char>, Seq<char>), ErrorView> {
    match r {
        Ok((a, b)) => Ok((a@, b@)),
        Err(e) => Err(e@),
    }
}

/// Whom claims speak for, where a token gave any: the account that they
/// name; else the token's own failure.
pub open spec fn resolution(
    s: Seq<UserView>,
    claims: Result<Claims, ServiceError>,
) -> Result<(Seq<char>, Seq<char>), ErrorView> {
    match claims {
        Ok(c) => session_user(s, c.sub@),
        Err(e) => Err(e@),
    }
}

/// What finding the caller gives for a header, whatever the token in it
/// turns out to say: the header's own failure; or an invalid token; or
/// what the account that some claims name gives.
pub open spec fn caller_found(
    s: Seq<UserView>,
    header: Option<Seq<char>>,
    r: Result<(String, String), ServiceError>,
) -> bool {
    match bearer_of(header) {
        Err(e) => r matches Err(x) && x@ == e,
        Ok(_) => {
            ||| r matches Err(x) && x@ == invalid_token()
            ||| exists|sub: Seq<char>| pair_outcome(r) == #[trigger] session_user(s, sub)
        },
    }
}

/// Whom the claims name, where there are claims.
pub open spec fn claims_subject(claims: Result<Claims, ServiceError>) -> Seq<char> {
    match claims {
        Ok(c) => c.sub@,
        Err(_) => Seq::empty(),
    }
}

/// The header of a call, as a sequence of characters where it is there.
pub open spec fn header_view(header: Option<&str>) -> Option<Seq<char>> {
    match header {
        Some(text) => Some(text@),
        None => None,
    }
}

/// The words of a list of strings.
pub open spec fn word_views(list: Seq<String>) -> Seq<Seq<char>> {
    list.map_values(|w: String| w@)
}

/// Whether the character is white space.
pub fn char_is_whitespace(c: char) -> (r: bool)
    ensures
        r == is_whitespace(c),
{
    let n: u32 = c as u32;
    (0x09 <= n && n <= 0x0D) || n == 0x20 || n == 0x85 || n == 0xA0 || n == 0x1680 || (0x2000 <= n
        && n <= 0x200A) || n == 0x2028 || n == 0x2029 || n == 0x202F || n == 0x205F || n == 0x3000
}

/// Splits a text into its words.
pub fn split_words(text: &str) -> (list: Vec<String>)
    ensures
        word_views(list@) == words(text@),
{
    let mut done: Vec<String> = Vec::new();
    let mut current = String::new();
    let mut in_word = false;
    assert(text@.take(0) =~= Seq::<char>::empty());
    assert(word_views(done@) =~= words(text@.take(0)));
    for c in it: text.chars()
        invariant
            it.seq() == text@,
            in_word <==> it.index() > 0 && !is_whitespace(text@[it.index() - 1]),
            in_word ==> current@.len() > 0 && words(text@.take(it.index() as int))
                == word_views(done@).push(current@),
            !in_word ==> current@.len() == 0 && words(text@.take(it.index() as int))
                == word_views(done@),
    {
        let ghost i = it.index() as int;
        let ghost prefix = text@.take(i);
        let ghost next = text@.take(i + 1);
        let ghost seen = word_views(done@);
        proof {
            assert(next.drop_last() =~= prefix);
            assert(next.last() == c);
            if i > 0 {
                assert(next[next.len() - 2] == text@[i - 1]);
            }
        }
        if char_is_whitespace(c) {
            if in_word {
                done.push(current);
                current = String::new();
                assert(word_views(done@) =~= words(prefix));
            }
            in_word = false;
        } else {
            proof {
                if in_word {
                    assert(seen.push(current@).drop_last() =~= seen);
                }
            }
            push_char(&mut current, c);
            proof {
                if !in_word {
                    assert(current@ =~= seq![c]);
                }
            }
            in_word = true;
        }
    }
    assert(text@.take(text@.len() as int) =~= text@);
    if in_word {
        let ghost seen = word_views(done@);
        done.push(current);
        assert(word_views(done@) =~= seen.push(current@));
    }
    done
}

/// Reads the session token out of an `Authorization` header. A token that
/// comes out is a word: it is not empty and holds no white space.
pub fn bearer_token(header: Option<&str>) -> (r: Result<String, ServiceError>)
    ensures
        text_outcome(r) == bearer_of(header_view(header)),
        r matches Ok(token) ==> is_word(token@),
{
    let text = match header {
        Some(text) => text,
        None => {
            return Err(ServiceError::unauthorized("No authorization header"));
        },
    };
    proof {
        lemma_words_are_words(text@);
    }
    let mut parts = split_words(text);
    if parts.len() != 2 {
        return Err(ServiceError::unauthorized("Invalid authorization header format"));
    }
    assert(word_views(parts@)[0] == parts@[0]@);
    assert(word_views(parts@)[1] == parts@[1]@);
    if parts[0] != "Bearer".to_owned() {
        return Err(ServiceError::unauthorized("Invalid authorization header format"));
    }
    let token = parts.remove(1);
    Ok(token)
}

/// Finds the account that accepted claims speak for.
pub fn resolve_session_user(
    store: &CredentialStore,
    claims: Result<Claims, ServiceError>,
) -> (r: Result<(String, String), ServiceError>)
    ensures
        pair_outcome(r) == resolution(store@, claims),
{
    let claims = claims?;
    match store.find_by_username(claims.sub.as_str()) {
        Some(i) => Ok((store.get(i).email.clone(), claims.sub)),
        None => Err(ServiceError::bad_request("User not found")),
    }
}

/// Finds out who is calling: reads the token out of the header, has it
/// checked against the key and the clock, and looks up the account that it
/// names. Gives the account's address and name. A missing or malformed
/// header fails as such; a token that does not pass is invalid; else the
/// claims decide, whatever they are.
pub fn extract_user_email_from_token(
    store: &CredentialStore,
    config: &Config,
    authorization: Option<&str>,
) -> (r: Result<(String, String), ServiceError>)
    ensures
        caller_found(store@, header_view(authorization), r),
{
    let token = bearer_token(authorization)?;
    let claims = parse(config.jwt_secret.as_str(), token.as_str());
    let ghost sub = claims_subject(claims);
    let ghost accepted = claims is Ok;
    let r = resolve_session_user(store, claims);
    proof {
        if accepted {
            assert(pair_outcome(r) == session_user(store@, sub));
        }
    }
    r
}

} // verus!
