//! The resolved identity of a caller.
//!
//! An identity is one text of the form `table:record`. It is made once a
//! credential has been verified and handed to the handlers of that request.

use crate::error::{Error, Result};
use crate::text::{
    free_of, lemma_first_index, lemma_split_len, lemma_split_parts_free, lemma_split_two,
    scan_delimiter, split,
};
use vstd::prelude::*;

verus! {

/// The character between the table and the record of an identifier.
pub const ID_DELIMITER: char = ':';

/// The table and the record of `id`, if the delimiter cuts it into exactly
/// two parts and neither is empty.
pub open spec fn decompose(id: Seq<char>) -> Option<(Seq<char>, Seq<char>)> {
    let parts = split(id, ID_DELIMITER);
    if parts.len() == 2 && parts[0].len() > 0 && parts[1].len() > 0 {
        Some((parts[0], parts[1]))
    } else {
        None
    }
}

/// An identifier that decomposes is its table, the delimiter and its record,
/// and the delimiter occurs in neither of the two.
pub proof fn lemma_decompose_joins(id: Seq<char>)
    requires
        decompose(id) is Some,
    ensures
        id == decompose(id)->Some_0.0 + seq![ID_DELIMITER] + decompose(id)->Some_0.1,
        free_of(decompose(id)->Some_0.0, ID_DELIMITER),
        free_of(decompose(id)->Some_0.1, ID_DELIMITER),
{
    let parts = split(id, ID_DELIMITER);
    lemma_split_len(id, ID_DELIMITER);
    lemma_split_two(id, ID_DELIMITER);
    lemma_split_parts_free(id, ID_DELIMITER);
    assert(free_of(parts[0], ID_DELIMITER));
    assert(free_of(parts[1], ID_DELIMITER));
    lemma_first_index(id, ID_DELIMITER);
    assert(id =~= parts[0] + seq![ID_DELIMITER] + parts[1]);
}

/// Cuts an identifier into its table and its record.
///
/// Succeeds exactly when the delimiter occurs once, with something before it
/// and something behind it.
pub fn split_identifier(id: &str) -> (parts: Option<(&str, &str)>)
    ensures
        match decompose(id@) {
            Some((table, record)) => parts is Some && parts->Some_0.0@ == table
                && parts->Some_0.1@ == record,
            None => parts is None,
        },
{
    let scan = scan_delimiter(id, ID_DELIMITER);
    proof {
        lemma_split_len(id@, ID_DELIMITER);
    }
    if scan.count != 1 {
        return None;
    }
    proof {
        lemma_split_two(id@, ID_DELIMITER);
    }
    if scan.first == 0 || scan.first + 1 == scan.len {
        return None;
    }
    let table = id.substring_char(0, scan.first);
    let record = id.substring_char(scan.first + 1, scan.len);
    proof {
        assert(id@.take(scan.first as int) =~= table@);
        assert(id@.skip(scan.first + 1) =~= record@);
    }
    Some((table, record))
}

/// The identity of the caller of one request.
#[derive(Clone, Debug)]
pub struct Ctx {
    user_id: String,
}

impl View for Ctx {
    type V = Seq<char>;

    /// The caller's identifier.
    closed spec fn view(&self) -> Seq<char> {
        self.user_id@
    }
}

impl Ctx {
    /// The identity of the caller with this identifier.
    pub fn new(user_id: String) -> (ctx: Self)
        ensures
            ctx@ == user_id@,
    {
        Self { user_id }
    }

    /// The caller's identifier.
    pub fn user_id(&self) -> (user_id: &str)
        ensures
            user_id@ == self@,
    {
        self.user_id.as_str()
    }

    /// The table and the record of the caller's identifier, or
    /// `SplitUserIdFail` where the identifier is not of the form
    /// `table:record` with both parts non-empty.
    pub fn try_user_id_tuple(&self) -> (parts: Result<(&str, &str)>)
        ensures
            match decompose(self@) {
                Some((table, record)) => parts is Ok && parts->Ok_0.0@ == table && parts->Ok_0.1@
                    == record,
                None => parts is Err && parts->Err_0 == Error::SplitUserIdFail,
            },
    {
        match split_identifier(self.user_id.as_str()) {
            Some(parts) => Ok(parts),
            None => Err(Error::SplitUserIdFail),
        }
    }
}

} // verus!
