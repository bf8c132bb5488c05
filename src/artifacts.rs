use vstd::prelude::*;
use crate::path::{join_path, path_join, copy_strings};

verus! {

/// Where a successful installation put its outputs, and which libraries it
/// produced, in order.
#[derive(Debug)]
pub struct ArtifactDescriptor {
    pub install_dir: String,
    pub include_dir: String,
    pub lib_dir: String,
    pub bin_dir: String,
    pub libs: Vec<String>,
}

pub open spec fn strings_view(v: Seq<String>) -> Seq<Seq<char>> {
    v.map_values(|s: String| s@)
}

/// The descriptor of an installation under `root`: its `include`, `lib` and
/// `bin` subdirectories, whether or not they exist.
pub open spec fn resolved(d: ArtifactDescriptor, root: Seq<char>, libs: Seq<Seq<char>>) -> bool {
    &&& d.install_dir@ == root
    &&& d.include_dir@ == path_join(root, "include"@)
    &&& d.lib_dir@ == path_join(root, "lib"@)
    &&& d.bin_dir@ == path_join(root, "bin"@)
    &&& strings_view(d.libs@) == libs
}

pub open spec fn search_line(dir: Seq<char>) -> Seq<char> {
    "cargo:rustc-link-search=native="@ + dir
}

pub open spec fn link_line(lib: Seq<char>) -> Seq<char> {
    "cargo:rustc-link-lib=static="@ + lib
}

pub open spec fn include_line(dir: Seq<char>) -> Seq<char> {
    "cargo:include="@ + dir
}

pub open spec fn lib_line(dir: Seq<char>) -> Seq<char> {
    "cargo:lib="@ + dir
}

/// A static-link directive for each library, in order.
pub open spec fn link_lines(libs: Seq<Seq<char>>) -> Seq<Seq<char>> {
    libs.map_values(|l: Seq<char>| link_line(l))
}

impl ArtifactDescriptor {
    /// The metadata lines a linking stage reads: the search path, one
    /// static-link directive per library in order, the include directory
    /// and the lib directory.
    pub open spec fn metadata_spec(&self) -> Seq<Seq<char>> {
        seq![search_line(self.lib_dir@)] + link_lines(strings_view(self.libs@)) + seq![
            include_line(self.include_dir@),
            lib_line(self.lib_dir@),
        ]
    }

    /// The metadata lines of this descriptor, one directive per line.
    pub fn cargo_metadata(&self) -> (r: Vec<String>)
        ensures
            strings_view(r@) == self.metadata_spec(),
    {
        proof {
            reveal_strlit("cargo:rustc-link-search=native=");
            reveal_strlit("cargo:rustc-link-lib=static=");
            reveal_strlit("cargo:include=");
            reveal_strlit("cargo:lib=");
        }
        let mut r: Vec<String> = Vec::new();
        r.push("cargo:rustc-link-search=native=".to_owned().concat(self.lib_dir.as_str()));
        let mut i: usize = 0;
        while i < self.libs.len()
            invariant
                i <= self.libs.len(),
                strings_view(r@) == seq![search_line(self.lib_dir@)] + link_lines(
                    strings_view(self.libs@.subrange(0, i as int)),
                ),
            decreases self.libs.len() - i,
        {
            let ghost before = strings_view(r@);
            r.push("cargo:rustc-link-lib=static=".to_owned().concat(self.libs[i].as_str()));
            proof {
                let a = strings_view(self.libs@.subrange(0, i as int));
                let x = self.libs@[i as int]@;
                assert(strings_view(self.libs@.subrange(0, i as int + 1)) =~= a.push(x));
                assert(link_lines(a.push(x)) =~= link_lines(a).push(link_line(x)));
                assert(strings_view(r@) =~= before.push(link_line(x)));
            }
            i = i + 1;
        }
        r.push("cargo:include=".to_owned().concat(self.include_dir.as_str()));
        r.push("cargo:lib=".to_owned().concat(self.lib_dir.as_str()));
        proof {
            assert(self.libs@.subrange(0, self.libs@.len() as int) =~= self.libs@);
            assert(strings_view(r@) =~= self.metadata_spec());
        }
        r
    }
}

/// Derives the artifact descriptor of an installation under `install_root`.
/// Nothing on disk is consulted.
pub fn resolve(install_root: &str, libs: &Vec<String>) -> (d: ArtifactDescriptor)
    ensures
        resolved(d, install_root@, strings_view(libs@)),
{
    ArtifactDescriptor {
        install_dir: install_root.to_owned(),
        include_dir: join_path(install_root, "include"),
        lib_dir: join_path(install_root, "lib"),
        bin_dir: join_path(install_root, "bin"),
        libs: copy_strings(libs),
    }
}

pub open spec fn rerun_line(dir: Seq<char>) -> Seq<char> {
    "cargo:rerun-if-changed="@ + dir
}

/// The directive that asks the consuming build system to run again when
/// anything under `dir` changes.
pub fn rerun_if_changed_line(dir: &str) -> (r: String)
    ensures
        r@ == rerun_line(dir@),
{
    "cargo:rerun-if-changed=".to_owned().concat(dir)
}

} // verus!
