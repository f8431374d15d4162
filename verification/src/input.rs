use vstd::prelude::*;
use crate::errors::ShareError;

verus! {

/// The final segment of a path: everything after the last `/`, or the whole
/// path when it holds no `/`.
pub open spec fn base_name_seq(p: Seq<char>) -> Seq<char>
    decreases p.len(),
{
    if p.len() == 0 {
        Seq::empty()
    } else if p.last() == '/' {
        Seq::empty()
    } else {
        base_name_seq(p.drop_last()).push(p.last())
    }
}

/// Extracts the base name (final path segment) of a path.
pub fn base_name(path: &str) -> (r: String)
    ensures
        r@ == base_name_seq(path@),
{
    let len = path.unicode_len();
    let mut j: usize = len;
    proof {
        assert(path@.take(len as int) =~= path@);
        assert(path@.skip(len as int) =~= Seq::<char>::empty());
        assert(base_name_seq(path@) =~= base_name_seq(path@.take(j as int)) + path@.skip(
            j as int,
        ));
    }
    while j > 0 && path.get_char(j - 1) != '/'
        invariant
            j <= len,
            len == path@.len(),
            base_name_seq(path@) == base_name_seq(path@.take(j as int)) + path@.skip(j as int),
        decreases j,
    {
        proof {
            let front = path@.take(j as int);
            assert(front.last() == path@[j - 1]);
            assert(front.drop_last() =~= path@.take(j - 1));
            assert(base_name_seq(path@.take(j - 1)).push(path@[j - 1]) + path@.skip(j as int)
                =~= base_name_seq(path@.take(j - 1)) + path@.skip(j - 1));
        }
        j = j - 1;
    }
    proof {
        if j > 0 {
            assert(path@.take(j as int).last() == path@[j - 1]);
        }
        assert(base_name_seq(path@.take(j as int)) =~= Seq::<char>::empty());
        assert(base_name_seq(path@) =~= path@.skip(j as int));
        assert(path@.skip(j as int) =~= path@.subrange(j as int, len as int));
    }
    let out = path.substring_char(j, len);
    out.to_owned()
}

/// The file chosen for sharing, read fully into memory: its path, its base
/// name, and its byte contents. The pipeline creates one of these per
/// invocation and gives it up when the upload request is sent.
pub struct FileHandle {
    pub path: String,
    pub base_name: String,
    pub contents: Vec<u8>,
}

impl FileHandle {
    /// The base name is exactly the final segment of the path.
    pub open spec fn wf(&self) -> bool {
        self.base_name@ == base_name_seq(self.path@)
    }

    /// Builds the handle for a validated path and the bytes read from it.
    pub fn new(path: String, contents: Vec<u8>) -> (r: FileHandle)
        ensures
            r.wf(),
            r.path@ == path@,
            r.contents@ == contents@,
    {
        let name = base_name(path.as_str());
        FileHandle { path, base_name: name, contents }
    }
}

/// The Input Resolver's decision: a validated path together with the bytes
/// read from it becomes a `FileHandle`; a path that does not denote a
/// regular file is rejected before any network activity.
pub fn resolve_input(path: String, is_regular_file: bool, contents: Vec<u8>) -> (r: Result<
    FileHandle,
    ShareError,
>)
    ensures
        match r {
            Ok(h) => is_regular_file && h.wf() && h.path@ == path@ && h.contents@ == contents@,
            Err(e) => !is_regular_file && (e matches ShareError::InvalidInput { path: p } && p@
                == path@),
        },
{
    if is_regular_file {
        Ok(FileHandle::new(path, contents))
    } else {
        Err(ShareError::InvalidInput { path })
    }
}

} // verus!
