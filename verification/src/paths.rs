use vstd::prelude::*;
use vstd::string::StrSliceExecFns;
use vstd::string::StringExecFns;

verus! {

/// The scratch directory that a label's raw device is mounted at; derived
/// deterministically from the label so that repeated runs are idempotent.
pub open spec fn spec_scratch_dir(label: Seq<char>) -> Seq<char> {
    "/tmp/"@ + label + "_mnt"@
}

/// The scratch mount directory for one label.
pub fn scratch_dir_for(label: &String) -> (d: String)
    ensures
        d@ == spec_scratch_dir(label@),
{
    let mut d = String::from_str("/tmp/");
    d.append(label.as_str());
    d.append("_mnt");
    d
}

/// The full destination path of a copy: the write directory joined with the
/// source file's base name.
pub open spec fn spec_dest_path(dir: Seq<char>, name: Seq<char>) -> Seq<char> {
    dir + "/"@ + name
}

/// Join a write directory with the source file's base name.
pub fn dest_path_for(dir: &String, name: &String) -> (p: String)
    ensures
        p@ == spec_dest_path(dir@, name@),
{
    let mut p = dir.clone();
    p.append("/");
    p.append(name.as_str());
    p
}

/// A file name carries the required extension when it ends in a dot followed
/// by `uf2`, with at least one character of stem before that dot.
pub open spec fn is_uf2_name(name: Seq<char>) -> bool {
    &&& name.len() >= 5
    &&& name[name.len() - 4] == '.'
    &&& name[name.len() - 3] == 'u'
    &&& name[name.len() - 2] == 'f'
    &&& name[name.len() - 1] == '2'
}

/// Does the source file's base name carry the required extension?
pub fn has_uf2_extension(name: &String) -> (r: bool)
    ensures
        r == is_uf2_name(name@),
{
    let s = name.as_str();
    let n = s.unicode_len();
    if n < 5 {
        return false;
    }
    let dot = s.get_char(n - 4);
    let u = s.get_char(n - 3);
    let f = s.get_char(n - 2);
    let two = s.get_char(n - 1);
    dot == '.' && u == 'u' && f == 'f' && two == '2'
}

} // verus!
