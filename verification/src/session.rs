//! The session store: stateless sessions carried by the client as signed
//! tokens.
//!
//! A token is a tag of `TAG_LEN` characters followed by the subject in plain
//! text. The tag is what the signer computes for the subject under the
//! process-wide key. To verify a token is to sign its payload again and to
//! compare: no table of sessions is kept, so a token that was issued stays
//! valid until the key changes.

use crate::errors::InvalidToken;
use crate::text::constant_time_eq;
use vstd::prelude::*;

verus! {

/// The number of characters of a tag.
pub const TAG_LEN: usize = 44;

/// The least number of bytes of a key.
pub const KEY_LEN: usize = 64;

/// What the signer returns for a payload under a key.
pub uninterp spec fn signed_value(key: Seq<u8>, payload: Seq<char>) -> Seq<char>;

/// Whether `signed` is laid out as a tag of `TAG_LEN` characters followed by
/// `payload`.
pub open spec fn framed(signed: Seq<char>, payload: Seq<char>) -> bool {
    signed.len() == TAG_LEN + payload.len() && signed.skip(TAG_LEN as int) == payload
}

/// The tag by which `key` vouches for `payload`: the first `TAG_LEN`
/// characters of the signed value. It has `TAG_LEN` characters for every key
/// and payload; where a signed value is not framed, which the signer rules
/// out for any value it returns, the tag is a run of `=`.
pub open spec fn tag(key: Seq<u8>, payload: Seq<char>) -> Seq<char> {
    let signed = signed_value(key, payload);
    if framed(signed, payload) {
        signed.take(TAG_LEN as int)
    } else {
        Seq::new(TAG_LEN as nat, |i: int| '=')
    }
}

/// The token that `key` issues for `subject`.
pub open spec fn issued(key: Seq<u8>, subject: Seq<char>) -> Seq<char> {
    tag(key, subject) + subject
}

/// The subject that `token` proves under `key`, if any: what follows the
/// first `TAG_LEN` characters, provided that it is not empty and that those
/// characters are its tag.
pub open spec fn verified(key: Seq<u8>, token: Seq<char>) -> Option<Seq<char>> {
    if token.len() > TAG_LEN && token.take(TAG_LEN as int) == tag(key, token.skip(TAG_LEN as int)) {
        Some(token.skip(TAG_LEN as int))
    } else {
        None
    }
}

/// The authenticated principal: a subject that is never empty.
#[derive(Debug, PartialEq, Eq)]
pub struct Session {
    subject: String,
}

impl View for Session {
    type V = Seq<char>;

    closed spec fn view(&self) -> Seq<char> {
        self.subject@
    }
}

impl Clone for Session {
    fn clone(&self) -> (copy: Session)
        ensures
            copy@ == self@,
    {
        proof {
            use_type_invariant(self);
        }
        Session { subject: self.subject.clone() }
    }
}

impl Session {
    #[verifier::type_invariant]
    spec fn named(self) -> bool {
        self.subject@.len() > 0
    }

    /// A session for `subject`, unless `subject` is empty.
    pub fn new(subject: String) -> (r: Option<Session>)
        ensures
            r is Some <==> subject@.len() > 0,
            r matches Some(session) ==> session@ == subject@,
    {
        if subject.as_str().unicode_len() == 0 {
            None
        } else {
            Some(Session { subject })
        }
    }

    /// The subject.
    pub fn subject(&self) -> (subject: &String)
        ensures
            subject@ == self@,
            subject@.len() > 0,
    {
        proof {
            use_type_invariant(self);
        }
        &self.subject
    }
}

/// A token as the client holds it and hands it back. Any text can be offered
/// as a token; only `SessionStore::verify` tells what it is worth.
#[derive(Clone, Debug, PartialEq, Eq)]
pub struct Token {
    text: String,
}

impl View for Token {
    type V = Seq<char>;

    closed spec fn view(&self) -> Seq<char> {
        self.text@
    }
}

impl Token {
    /// The token that reads `text`.
    pub fn new(text: String) -> (token: Token)
        ensures
            token@ == text@,
    {
        Token { text }
    }

    /// The token's text.
    pub fn as_str(&self) -> (text: &str)
        ensures
            text@ == self@,
    {
        self.text.as_str()
    }
}

/// `cookie::CookieJar::signed_mut` and `cookie::SignedJar::add`, on a key made
/// by `cookie::Key::from`; the signed value is read back with
/// `cookie::CookieJar::get`.
///
/// Claimed and not proved: the value returned is a function of the key's
/// bytes and the payload alone, named `signed_value`, and it is framed: the
/// jar puts 44 characters, the base64 text of an HMAC-SHA256 digest, in front
/// of the payload, which it leaves as it is. `Key::from` panics on fewer than
/// 64 bytes, which are therefore required.
#[verifier::external_body]
fn sign(key: &Vec<u8>, payload: &str) -> (signed: String)
    requires
        key@.len() >= KEY_LEN,
    ensures
        signed@ == signed_value(key@, payload@),
        framed(signed@, payload@),
{
    let key = cookie::Key::from(key);
    let mut jar = cookie::CookieJar::new();
    jar.signed_mut(&key).add(cookie::Cookie::new("id", payload.to_owned()));
    match jar.get("id") {
        Some(cookie) => cookie.value().to_owned(),
        None => String::new(),
    }
}

/// Decides on a token, given the signed value of its payload: the token is
/// good exactly when it has a payload and reads as the signed value does.
pub fn confirm(token: &Token, resigned: &str) -> (r: Result<Session, InvalidToken>)
    ensures
        r is Ok <==> token@.len() > TAG_LEN && token@ == resigned@,
        r matches Ok(session) ==> session@ == token@.skip(TAG_LEN as int),
        r is Err ==> r == Err::<Session, InvalidToken>(InvalidToken),
{
    let n: usize = token.as_str().unicode_len();
    if n <= TAG_LEN {
        return Err(InvalidToken);
    }
    if !constant_time_eq(token.as_str(), resigned) {
        return Err(InvalidToken);
    }
    let subject: String = token.as_str().substring_char(TAG_LEN, n).to_owned();
    assert(token@.subrange(TAG_LEN as int, n as int) =~= token@.skip(TAG_LEN as int));
    Ok(Session { subject })
}

/// Issues and verifies tokens under one key, which never changes.
pub struct SessionStore {
    key: Vec<u8>,
}

impl Clone for SessionStore {
    fn clone(&self) -> (copy: SessionStore)
        ensures
            copy.key() == self.key(),
    {
        proof {
            use_type_invariant(self);
        }
        SessionStore { key: self.key.clone() }
    }
}

impl SessionStore {
    #[verifier::type_invariant]
    spec fn keyed(self) -> bool {
        self.key@.len() >= KEY_LEN
    }

    /// The bytes of the key.
    pub closed spec fn key(&self) -> Seq<u8> {
        self.key@
    }

    /// A store under `key`, unless `key` has fewer than `KEY_LEN` bytes.
    pub fn new(key: Vec<u8>) -> (r: Option<SessionStore>)
        ensures
            r is Some <==> key@.len() >= KEY_LEN,
            r matches Some(store) ==> store.key() == key@,
    {
        if key.len() < KEY_LEN {
            None
        } else {
            Some(SessionStore { key })
        }
    }

    /// Issues the token for a session. The token verifies under this store
    /// to the session's subject.
    pub fn issue(&self, session: &Session) -> (token: Token)
        ensures
            token@ == issued(self.key(), session@),
            verified(self.key(), token@) == Some(session@),
    {
        proof {
            use_type_invariant(self);
            use_type_invariant(session);
            law_round_trip(self.key(), session@);
        }
        let signed: String = sign(&self.key, session.subject().as_str());
        assert(signed@ =~= issued(self.key(), session@));
        Token::new(signed)
    }

    /// Verifies a token: `Ok` with the subject exactly where the token is the
    /// one that this store issues for a subject that is not empty, and
    /// `InvalidToken` for every other text.
    pub fn verify(&self, token: &Token) -> (r: Result<Session, InvalidToken>)
        ensures
            match verified(self.key(), token@) {
                Some(subject) => r is Ok && r->Ok_0@ == subject,
                None => r == Err::<Session, InvalidToken>(InvalidToken),
            },
    {
        proof {
            use_type_invariant(self);
        }
        let n: usize = token.as_str().unicode_len();
        if n <= TAG_LEN {
            return Err(InvalidToken);
        }
        let payload: &str = token.as_str().substring_char(TAG_LEN, n);
        assert(payload@ =~= token@.skip(TAG_LEN as int));
        let resigned: String = sign(&self.key, payload);
        proof {
            assert(resigned@ =~= issued(self.key(), payload@));
            law_verified_is_issued(self.key(), token@);
        }
        confirm(token, resigned.as_str())
    }
}

/// A tag has `TAG_LEN` characters.
pub proof fn lemma_tag_len(key: Seq<u8>, payload: Seq<char>)
    ensures
        tag(key, payload).len() == TAG_LEN,
{
}

/// A token verifies exactly when it has a payload and is the token issued
/// for that payload; then it proves the payload and nothing else.
pub proof fn law_verified_is_issued(key: Seq<u8>, token: Seq<char>)
    ensures
        verified(key, token) is Some <==> token.len() > TAG_LEN && token == issued(
            key,
            token.skip(TAG_LEN as int),
        ),
        verified(key, token) matches Some(subject) ==> subject.len() > 0 && token == issued(
            key,
            subject,
        ),
{
    let payload = token.skip(TAG_LEN as int);
    lemma_tag_len(key, payload);
    if token.len() > TAG_LEN {
        assert(token.take(TAG_LEN as int) + payload =~= token);
        if token == issued(key, payload) {
            assert(token.take(TAG_LEN as int) =~= tag(key, payload));
        }
    }
}

/// Round trip: the token issued for a subject that is not empty verifies,
/// under the same key, to that subject.
pub proof fn law_round_trip(key: Seq<u8>, subject: Seq<char>)
    requires
        subject.len() > 0,
    ensures
        verified(key, issued(key, subject)) == Some(subject),
{
    let token = issued(key, subject);
    lemma_tag_len(key, subject);
    assert(token.skip(TAG_LEN as int) =~= subject);
    assert(token.take(TAG_LEN as int) =~= tag(key, subject));
}

/// A token whose tag was altered does not verify: no other `TAG_LEN`
/// characters in front of a subject pass for its tag.
pub proof fn law_altered_tag_rejected(key: Seq<u8>, subject: Seq<char>, forged: Seq<char>)
    requires
        forged.len() == TAG_LEN,
        forged != tag(key, subject),
    ensures
        verified(key, forged + subject) is None,
{
    let token = forged + subject;
    assert(token.skip(TAG_LEN as int) =~= subject);
    assert(token.take(TAG_LEN as int) =~= forged);
}

/// A token issued under one key does not verify under a key that signs its
/// subject differently.
pub proof fn law_wrong_key_rejected(key: Seq<u8>, other: Seq<u8>, subject: Seq<char>)
    requires
        tag(other, subject) != tag(key, subject),
    ensures
        verified(other, issued(key, subject)) is None,
{
    lemma_tag_len(key, subject);
    law_altered_tag_rejected(other, subject, tag(key, subject));
}

/// Tokens issued under one key for two subjects differ, and each proves its
/// own subject: issuing one leaves the other as it was.
pub proof fn law_tokens_independent(key: Seq<u8>, first: Seq<char>, second: Seq<char>)
    requires
        first.len() > 0,
        second.len() > 0,
        first != second,
    ensures
        issued(key, first) != issued(key, second),
        verified(key, issued(key, first)) == Some(first),
        verified(key, issued(key, second)) == Some(second),
{
    law_round_trip(key, first);
    law_round_trip(key, second);
}

} // verus!
