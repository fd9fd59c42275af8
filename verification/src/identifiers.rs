//! Identifiers of stored entities.

use vstd::prelude::*;

use crate::net::is_hex;
use crate::status::{MessageResponse, Status};
use crate::text::lowercase;

verus! {

/// Five groups of 8, 4, 4, 4 and 12 hexadecimal digits with hyphens between.
pub open spec fn is_hyphenated(s: Seq<char>) -> bool {
    s.len() == 36 && forall|i: int|
        0 <= i < 36 ==> if i == 8 || i == 13 || i == 18 || i == 23 {
            #[trigger] s[i] == '-'
        } else {
            is_hex(s[i])
        }
}

/// 32 hexadecimal digits.
pub open spec fn is_simple(s: Seq<char>) -> bool {
    s.len() == 32 && forall|i: int| 0 <= i < 32 ==> is_hex(#[trigger] s[i])
}

/// The hyphenated text inside the forms that may wrap it: braces, or `urn:uuid:`.
pub open spec fn unwrapped(s: Seq<char>) -> Seq<char> {
    if s.len() == 38 && s[0] == '{' && s[37] == '}' {
        s.subrange(1, 37)
    } else if s.len() == 45 && lowercase(s.take(9)) == "urn:uuid:"@ {
        s.skip(9)
    } else {
        s
    }
}

/// The identifier that `s` writes, in hyphenated lower-case form: `s` is 32
/// hexadecimal digits, or the hyphenated form, bare, in braces or as a URN.
pub open spec fn uuid_text(s: Seq<char>) -> Option<Seq<char>> {
    if is_simple(s) {
        Some(
            lowercase(
                s.subrange(0, 8) + seq!['-'] + s.subrange(8, 12) + seq!['-'] + s.subrange(12, 16) + seq!['-']
                    + s.subrange(16, 20) + seq!['-'] + s.subrange(20, 32),
            ),
        )
    } else if is_hyphenated(unwrapped(s)) {
        Some(lowercase(unwrapped(s)))
    } else {
        None
    }
}

/// `uuid::Uuid::parse_str`, with the identifier as its `Display` text: claims
/// which texts are accepted and that the text of the result is the accepted
/// digits in hyphenated lower-case form.
#[verifier::external_body]
fn uuid_parse(s: &str) -> (r: Option<String>)
    ensures
        match r {
            Some(t) => uuid_text(s@) == Some(t@),
            None => uuid_text(s@) is None,
        },
{
    uuid::Uuid::parse_str(s).ok().map(|u| u.to_string())
}

/// The identifier in the path of a request: what is none is a bad request.
pub fn require_uuid(s: &str) -> (r: Result<String, Status>)
    ensures
        r is Ok <==> uuid_text(s@) is Some,
        r matches Ok(t) ==> uuid_text(s@) == Some(t@),
        r matches Err(e) ==> e == Status::BadRequest,
{
    match uuid_parse(s) {
        Some(t) => Ok(t),
        None => Err(Status::BadRequest),
    }
}

/// The identifier of an entity that is put back from a backup.
#[derive(Clone, Debug)]
pub enum EntityId {
    /// The one that the backup gives.
    Kept(String),
    /// A new one, because the backup gives none that is valid.
    Fresh,
}

/// The value of an [`EntityId`].
pub enum IdView {
    Kept(Seq<char>),
    Fresh,
}

impl View for EntityId {
    type V = IdView;

    open spec fn view(&self) -> IdView {
        match *self {
            EntityId::Kept(t) => IdView::Kept(t@),
            EntityId::Fresh => IdView::Fresh,
        }
    }
}

/// The identifier of an entity whose backup has `s` for one.
pub open spec fn id_of(s: Seq<char>) -> IdView {
    match uuid_text(s) {
        Some(t) => IdView::Kept(t),
        None => IdView::Fresh,
    }
}

/// The identifier of an entity whose backup has `s` for one.
pub fn entity_id(s: &str) -> (r: EntityId)
    ensures
        r@ == id_of(s@),
{
    match uuid_parse(s) {
        Some(t) => EntityId::Kept(t),
        None => EntityId::Fresh,
    }
}

/// An identifier in hyphenated lower-case form is kept as it is.
pub proof fn canonical_ids_are_kept(s: Seq<char>)
    requires
        is_hyphenated(s),
        lowercase(s) == s,
    ensures
        id_of(s) == IdView::Kept(s),
{
}

/// The text of an answer, or the status of a refusal.
pub open spec fn said(r: Result<MessageResponse, Status>) -> Result<Seq<char>, Status> {
    match r {
        Ok(m) => Ok(m.message@),
        Err(e) => Err(e),
    }
}

/// The answer to a request that changes the entity `id`: what is no identifier
/// is a bad request, a change that was not made has the status `failed`.
pub open spec fn change_answer(id: Seq<char>, made: bool, failed: Status, text: Seq<char>) -> Result<Seq<char>, Status> {
    if uuid_text(id) is None {
        Err(Status::BadRequest)
    } else if made {
        Ok(text)
    } else {
        Err(failed)
    }
}

/// The answer to a request that changes the entity `id`. Where `id` is an
/// identifier, `made` says whether the engine made the change; elsewhere it is
/// not asked to.
pub fn answer_change(id: &str, made: bool, failed: Status, message: String) -> (r: Result<MessageResponse, Status>)
    ensures
        said(r) == change_answer(id@, made, failed, message@),
{
    match require_uuid(id) {
        Err(e) => Err(e),
        Ok(_) => if made {
            Ok(MessageResponse { message })
        } else {
            Err(failed)
        },
    }
}

// ---------------------------------------------------------------------------
// Laws
// ---------------------------------------------------------------------------

/// A hyphenated identifier reads as itself in small letters, and so it does in braces and
/// behind `urn:uuid:`.
pub proof fn identifiers_are_read_in_every_form(s: Seq<char>)
    requires
        is_hyphenated(s),
    ensures
        uuid_text(s) == Some(lowercase(s)),
        uuid_text(seq!['{'] + s + seq!['}']) == Some(lowercase(s)),
        uuid_text("urn:uuid:"@ + s) == Some(lowercase(s)),
{
    let b = seq!['{'] + s + seq!['}'];
    assert(b.subrange(1, 37) =~= s);
    reveal_strlit("urn:uuid:");
    let u = "urn:uuid:"@ + s;
    assert(u.take(9) =~= "urn:uuid:"@);
    assert(lowercase("urn:uuid:"@) =~= "urn:uuid:"@);
    assert(u.skip(9) =~= s);
}

/// An identifier has 32 hexadecimal digits, with hyphens behind the eighth, twelfth, sixteenth
/// and twentieth or without any.
pub proof fn hyphens_stand_in_their_places(a: Seq<char>, b: Seq<char>, c: Seq<char>, d: Seq<char>, e: Seq<char>)
    requires
        a.len() == 8,
        b.len() == 4,
        c.len() == 4,
        d.len() == 4,
        e.len() == 12,
    ensures
        (forall|k: int| 0 <= k < 32 ==> is_hex(#[trigger] (a + b + c + d + e)[k]))
            ==> uuid_text(a + b + c + d + e) == Some(lowercase(a + seq!['-'] + b + seq!['-'] + c + seq!['-'] + d
            + seq!['-'] + e)),
{
    let s = a + b + c + d + e;
    assert(s.subrange(0, 8) =~= a);
    assert(s.subrange(8, 12) =~= b);
    assert(s.subrange(12, 16) =~= c);
    assert(s.subrange(16, 20) =~= d);
    assert(s.subrange(20, 32) =~= e);
}

/// What is read of a text is hyphenated, and a text of another length is no identifier.
pub proof fn what_is_read_is_an_identifier(s: Seq<char>, i: int)
    ensures
        s.len() != 32 && s.len() != 36 && s.len() != 38 && s.len() != 45 ==> uuid_text(s) is None,
        s.len() == 36 && (s[8] != '-' || s[13] != '-' || s[18] != '-' || s[23] != '-') ==> uuid_text(s) is None,
        s.len() == 32 && 0 <= i < 32 && !is_hex(s[i]) ==> uuid_text(s) is None,
        s.len() == 36 && 0 <= i < 36 && i != 8 && i != 13 && i != 18 && i != 23 && !is_hex(s[i])
            ==> uuid_text(s) is None,
{
}

/// What is an identifier is kept as it reads, and anything else gets a fresh one.
pub proof fn identifiers_are_kept_or_made(s: Seq<char>)
    ensures
        uuid_text(s) is None ==> id_of(s) == IdView::Fresh,
        uuid_text(s) matches Some(t) ==> id_of(s) == IdView::Kept(t),
{
}

/// A change of what is no identifier is a bad request; otherwise the answer is the words where
/// it was made, and the failure where it was not.
pub proof fn changes_are_answered(id: Seq<char>, made: bool, failed: Status, text: Seq<char>)
    ensures
        uuid_text(id) is None ==> change_answer(id, made, failed, text) == Err::<Seq<char>, Status>(Status::BadRequest),
        uuid_text(id) is Some && made ==> change_answer(id, made, failed, text) == Ok::<Seq<char>, Status>(text),
        uuid_text(id) is Some && !made ==> change_answer(id, made, failed, text) == Err::<Seq<char>, Status>(failed),
{
}

/// An identifier that is kept stands for its text.
pub proof fn identifiers_hold_their_text(op: EntityId)
    ensures
        op matches EntityId::Kept(t) ==> op@ == (IdView::Kept(t@)),
        op is Fresh ==> op@ == IdView::Fresh,
{
}

/// An answer says its words, and a refusal its status.
pub proof fn answers_hold_their_words(r: Result<MessageResponse, Status>)
    ensures
        r matches Ok(m) ==> said(r) == Ok::<Seq<char>, Status>(m.message@),
        r matches Err(e) ==> said(r) == Err::<Seq<char>, Status>(e),
{
}

} // verus!
