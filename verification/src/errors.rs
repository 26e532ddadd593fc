//! The store's error values and their rendering as readable messages.
use vstd::prelude::*;
use vstd::string::StringExecFns;
use crate::num::dec_str;
use crate::num::u64_to_string;

verus! {

/// What a store operation can fail with: an oversized content, rejected
/// before anything is written, or an error of the database driver.
pub enum StoreError {
    /// The content's byte size exceeds `MAX_CONTENT_SIZE`.
    ContentTooLarge { size: usize },
    /// The driver reported an error.
    Db(rusqlite::Error),
}

/// The message shown for an oversized content, naming the actual size.
pub open spec fn too_large_msg(size: nat) -> Seq<char> {
    "Content size "@ + dec_str(size) + " bytes exceeds the maximum of 10485760 bytes"@
}

impl StoreError {
    /// A readable description; for an oversized content it states the size.
    pub fn message(&self) -> (r: String)
        ensures
            self matches StoreError::ContentTooLarge { size } ==> r@ == too_large_msg(
                size as nat,
            ),
    {
        match self {
            StoreError::ContentTooLarge { size } => {
                let mut m = "Content size ".to_owned();
                let digits = u64_to_string(*size as u64);
                m.append(digits.as_str());
                m.append(" bytes exceeds the maximum of 10485760 bytes");
                proof {
                    assert(m@ =~= too_large_msg(*size as nat));
                }
                m
            },
            StoreError::Db(e) => crate::sqlite::db_error_text(e),
        }
    }
}

/// Converts a driver error into a readable message opening with `context`.
pub fn map_db_error<T>(result: Result<T, rusqlite::Error>, context: &str) -> (r: Result<
    T,
    String,
>)
    ensures
        result matches Ok(v) ==> (r matches Ok(w) && w == v),
        result is Err ==> (r matches Err(m) && m@.len() >= context@.len() + 2 && m@.take(
            context@.len() as int,
        ) == context@),
{
    match result {
        Ok(v) => Ok(v),
        Err(e) => {
            proof {
                reveal_strlit(": ");
            }
            let text = crate::sqlite::db_error_text(&e);
            let mut m = context.to_owned();
            m.append(": ");
            m.append(text.as_str());
            proof {
                assert(m@.take(context@.len() as int) =~= context@);
            }
            Err(m)
        },
    }
}

} // verus!
