//! The modelled source tree a compilation inspects: a flat list of files
//! with their contents and a list of directories. The invoking layer
//! reads the real tree from disk and hands the core this value.
use vstd::prelude::*;

use crate::errors::NixpacksError;
use crate::strutil::{ends_with_str, spec_ends_with, str_eq};

verus! {

/// One file of the source tree: its path relative to the tree root and
/// its textual content.
#[derive(Clone, Debug, PartialEq, Eq)]
pub struct SourceFile {
    pub path: String,
    pub content: String,
}

/// Some file of `files` has exactly the path `name`.
pub open spec fn spec_includes_file(files: Seq<SourceFile>, name: Seq<char>) -> bool {
    exists|i: int| 0 <= i < files.len() && (#[trigger] files[i]).path@ == name
}

/// Some entry of `dirs` is exactly `name`.
pub open spec fn spec_includes_dir(dirs: Seq<Seq<char>>, name: Seq<char>) -> bool {
    exists|i: int| 0 <= i < dirs.len() && #[trigger] dirs[i] == name
}

/// The content of the first file of `files` whose path is `name`.
pub open spec fn spec_read_file(files: Seq<SourceFile>, name: Seq<char>) -> Option<Seq<char>>
    decreases files.len(),
{
    if files.len() == 0 {
        Option::None
    } else if files[0].path@ == name {
        Option::Some(files[0].content@)
    } else {
        spec_read_file(files.skip(1), name)
    }
}

/// The paths of `files` that end with `suffix`, in tree order.
pub open spec fn spec_find_files(files: Seq<SourceFile>, suffix: Seq<char>) -> Seq<Seq<char>>
    decreases files.len(),
{
    if files.len() == 0 {
        Seq::empty()
    } else {
        (if spec_ends_with(files[0].path@, suffix) {
            seq![files[0].path@]
        } else {
            Seq::empty()
        }) + spec_find_files(files.skip(1), suffix)
    }
}

/// A file's content is readable exactly when the tree includes it.
pub proof fn lemma_read_file_some_iff_includes(files: Seq<SourceFile>, name: Seq<char>)
    ensures
        spec_read_file(files, name) is Some <==> spec_includes_file(files, name),
    decreases files.len(),
{
    if files.len() > 0 {
        lemma_read_file_some_iff_includes(files.skip(1), name);
        if files[0].path@ == name {
            assert(spec_includes_file(files, name));
        } else {
            if spec_includes_file(files.skip(1), name) {
                let i = choose|i: int|
                    0 <= i < files.skip(1).len() && (#[trigger] files.skip(1)[i]).path@ == name;
                assert(files[i + 1].path@ == name);
            }
            if spec_includes_file(files, name) {
                let i = choose|i: int|
                    0 <= i < files.len() && (#[trigger] files[i]).path@ == name;
                assert(files.skip(1)[i - 1] == files[i]);
            }
        }
    }
}

/// A source tree handle: what the compiler may ask of the application
/// being built.
#[derive(Clone, Debug, PartialEq, Eq)]
pub struct App {
    pub files: Vec<SourceFile>,
    pub directories: Vec<String>,
}

impl App {
    /// A source tree holding exactly the given files and directories.
    pub fn new(files: Vec<SourceFile>, directories: Vec<String>) -> (r: App)
        ensures
            r.files == files,
            r.directories == directories,
    {
        App { files, directories }
    }

    /// True when the tree holds a file at exactly the path `name`.
    pub fn includes_file(&self, name: &str) -> (r: bool)
        ensures
            r == spec_includes_file(self.files@, name@),
    {
        let mut i: usize = 0;
        while i < self.files.len()
            invariant
                0 <= i <= self.files@.len(),
                forall|j: int| 0 <= j < i ==> (#[trigger] self.files@[j]).path@ != name@,
            decreases self.files@.len() - i,
        {
            if str_eq(self.files[i].path.as_str(), name) {
                return true;
            }
            i = i + 1;
        }
        false
    }

    /// True when the tree holds a directory at exactly the path `name`.
    pub fn includes_directory(&self, name: &str) -> (r: bool)
        ensures
            r == spec_includes_dir(self.directories.deep_view(), name@),
    {
        let ghost dv = self.directories.deep_view();
        let mut i: usize = 0;
        while i < self.directories.len()
            invariant
                0 <= i <= self.directories@.len(),
                forall|j: int| 0 <= j < i ==> #[trigger] dv[j] != name@,
            decreases self.directories@.len() - i,
        {
            assert(dv[i as int] == self.directories@[i as int]@);
            if str_eq(self.directories[i].as_str(), name) {
                return true;
            }
            i = i + 1;
        }
        false
    }

    /// The content of the file at `name`; a missing file is reported as
    /// `MissingFile`, wrapped for the caller with the path it names.
    pub fn read_file(&self, name: &str) -> (r: Result<String, NixpacksError>)
        ensures
            r matches Ok(c) ==> spec_read_file(self.files@, name@) == Some(c@),
            r is Ok <==> spec_includes_file(self.files@, name@),
            r matches Err(e) ==> e matches NixpacksError::MissingFile(p) && p@ == name@,
    {
        let ghost fv = self.files@;
        proof {
            lemma_read_file_some_iff_includes(fv, name@);
            assert(fv.skip(0) =~= fv);
        }
        let mut i: usize = 0;
        while i < self.files.len()
            invariant
                0 <= i <= fv.len(),
                spec_read_file(fv, name@) == spec_read_file(fv.skip(i as int), name@),
            decreases fv.len() - i,
        {
            assert(fv.skip(i as int)[0] == fv[i as int]);
            if str_eq(self.files[i].path.as_str(), name) {
                let c: String = self.files[i].content.clone();
                return Result::Ok(c);
            }
            assert(fv.skip(i as int).skip(1) =~= fv.skip(i as int + 1));
            i = i + 1;
        }
        assert(spec_read_file(fv.skip(fv.len() as int), name@) is None);
        Result::Err(NixpacksError::MissingFile(name.to_owned()))
    }

    /// The paths of all files whose name matches the glob `*<suffix>`,
    /// in tree order.
    pub fn find_files(&self, pattern: &str) -> (r: Vec<String>)
        requires
            pattern@.len() >= 1,
            pattern@[0] == '*',
        ensures
            r.deep_view() == spec_find_files(self.files@, pattern@.skip(1)),
    {
        let plen = pattern.unicode_len();
        let suffix = pattern.substring_char(1, plen);
        assert(suffix@ =~= pattern@.skip(1));
        let ghost fv = self.files@;
        let ghost full = spec_find_files(fv, suffix@);
        let mut r: Vec<String> = Vec::new();
        proof {
            assert(fv.skip(0) =~= fv);
        }
        let mut i: usize = 0;
        while i < self.files.len()
            invariant
                0 <= i <= fv.len(),
                full == r.deep_view() + spec_find_files(fv.skip(i as int), suffix@),
            decreases fv.len() - i,
        {
            assert(fv.skip(i as int)[0] == fv[i as int]);
            if ends_with_str(self.files[i].path.as_str(), suffix) {
                let p: String = self.files[i].path.clone();
                r.push(p);
            }
            proof {
                assert(fv.skip(i as int).skip(1) =~= fv.skip(i as int + 1));
                assert(r.deep_view() + spec_find_files(fv.skip(i as int + 1), suffix@) =~= full);
            }
            i = i + 1;
        }
        proof {
            assert(spec_find_files(fv.skip(fv.len() as int), suffix@) =~= Seq::<Seq<char>>::empty());
            assert(r.deep_view() + Seq::<Seq<char>>::empty() =~= r.deep_view());
        }
        r
    }
}

} // verus!
