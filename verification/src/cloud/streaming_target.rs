//! What every streaming upload target tells: its name and its progress.
use vstd::prelude::*;

verus! {

/// A destination that receives a stream of data, such as an S3 object or a
/// file on an SFTP server.
pub trait StreamingTarget {
    /// The name of the target, for messages.
    spec fn name_of(&self) -> Seq<char>;

    /// The number of bytes the target has accepted so far.
    spec fn uploaded_of(&self) -> nat;

    /// The name of the target, for messages.
    fn target_name(&self) -> (r: String)
        ensures
            r@ == self.name_of(),
    ;

    /// The number of bytes uploaded so far.
    fn bytes_uploaded(&self) -> (r: u64)
        ensures
            r == self.uploaded_of(),
    ;
}

} // verus!
