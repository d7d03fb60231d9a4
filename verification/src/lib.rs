//! A decoder for .NET assemblies: from the bytes of the executable container to the
//! metadata tables, heaps and signatures that they hold.

use vstd::prelude::*;

pub mod assembly;
pub mod bitvec;
pub mod bytes;
pub mod encoded_table;
pub mod error;
pub mod field;
pub mod heap;
pub mod index;
pub mod metadata;
pub mod method;
pub mod param;
pub mod pe_file;
pub mod resolution_scope;
pub mod schema;
pub mod seqs;
pub mod table;
pub mod type_def;
pub mod types;

verus! {

/// The sum of two sizes.
pub fn add(left: usize, right: usize) -> (r: usize)
    requires
        left + right <= usize::MAX,
    ensures
        r == left + right,
{
    left + right
}

} // verus!
