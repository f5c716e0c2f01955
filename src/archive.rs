//! Packing of files into an application archive, through the `asar` crate.
use vstd::prelude::*;

verus! {

#[verifier::external_type_specification]
#[verifier::external_body]
pub struct ExAsarWriter(asar::AsarWriter);

#[verifier::external_type_specification]
#[verifier::external_body]
pub struct ExAsarError(asar::Error);

/// The file contents a writer has taken, in the order they were written.
pub uninterp spec fn asar_buffer(w: asar::AsarWriter) -> Seq<u8>;

/// The names of the files a writer has taken.
pub uninterp spec fn asar_names(w: asar::AsarWriter) -> Set<Seq<char>>;

/// The names of the files that archive bytes list in their header.
pub uninterp spec fn asar_listing(b: Seq<u8>) -> Set<Seq<char>>;

/// A name of a single path component: not empty, without a separator or drive mark, and
/// neither `.` nor `..`.
pub open spec fn plain_name(n: Seq<char>) -> bool {
    &&& n.len() > 0
    &&& forall|i: int| 0 <= i < n.len() ==> n[i] != '/' && n[i] != '\\' && n[i] != ':'
    &&& n != seq!['.']
    &&& n != seq!['.', '.']
}

/// Relies on `asar::AsarWriter::new`: a writer with no files and an empty buffer.
#[verifier::external_body]
pub(crate) fn asar_new() -> (w: asar::AsarWriter)
    ensures
        asar_buffer(w) == Seq::<u8>::empty(),
        asar_names(w) == Set::<Seq<char>>::empty(),
{
    asar::AsarWriter::new()
}

/// Relies on `asar::AsarWriter::write_file`: it fails, changing nothing, on a name that was
/// already written; otherwise it appends the contents to the buffer and records the name.
#[verifier::external_body]
pub(crate) fn asar_write_file(w: &mut asar::AsarWriter, name: &str, contents: &str) -> (r: Result<
    (),
    asar::Error,
>)
    requires
        plain_name(name@),
    ensures
        r is Err <==> asar_names(*old(w)).contains(name@),
        r is Err ==> asar_buffer(*final(w)) == asar_buffer(*old(w)) && asar_names(*final(w))
            == asar_names(*old(w)),
        r is Ok ==> asar_buffer(*final(w)) == asar_buffer(*old(w)) + vstd::utf8::encode_utf8(
            contents@,
        ) && asar_names(*final(w)) == asar_names(*old(w)).insert(name@),
{
    w.write_file(name, contents.as_bytes(), false)
}

/// Relies on `asar::AsarWriter::finalize` writing into a byte vector, which cannot fail:
/// the output opens with the four header-size fields, the first of which is the
/// little-endian value 4, its header lists exactly the files written, and it ends with the
/// buffer of file contents.
#[verifier::external_body]
pub(crate) fn asar_finalize(w: asar::AsarWriter) -> (r: Result<Vec<u8>, asar::Error>)
    requires
        forall|n: Seq<char>| asar_names(w).contains(n) ==> plain_name(n),
    ensures
        r is Ok,
        r matches Ok(b) ==> {
            &&& asar_listing(b@) == asar_names(w)
            &&& b@.len() >= 16 + asar_buffer(w).len()
            &&& b@.subrange(0, 4) == seq![4u8, 0u8, 0u8, 0u8]
            &&& b@.subrange(b@.len() - asar_buffer(w).len(), b@.len() as int) == asar_buffer(w)
        },
{
    let mut out: Vec<u8> = Vec::new();
    match w.finalize(&mut out) {
        Ok(_) => Ok(out),
        Err(e) => Err(e),
    }
}

} // verus!
