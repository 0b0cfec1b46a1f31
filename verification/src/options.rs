//! The merge policy of a copy pass.

use vstd::prelude::*;

verus! {

/// How a copy pass treats what the destination already holds.
///
/// `overwrite` and `skip_existing` may both be set; `skip_existing` then
/// wins, so an existing destination entry is rewritten only when `overwrite`
/// is set and `skip_existing` is not.
#[derive(Clone, Copy, Debug, PartialEq, Eq, Structural)]
pub struct SyncOptions {
    /// Rewrite entries that the destination already holds.
    pub overwrite: bool,
    /// Leave entries that the destination already holds as they are.
    pub skip_existing: bool,
    /// Copy what the source directory holds, not the directory itself.
    pub copy_contents_only: bool,
}

/// The settings of a copy pass as the copying back-end reads them, with the
/// merge policy already resolved.
#[derive(Clone, Copy, Debug, PartialEq, Eq, Structural)]
pub struct CopyFlags {
    /// Rewrite files that exist.
    pub overwrite: bool,
    /// Pass over files that exist.
    pub skip_exist: bool,
    /// How many bytes are copied between two progress reports.
    pub buffer_size: usize,
    /// Copy the directory under a new name or into the destination.
    pub copy_inside: bool,
    /// Copy what the directory holds, without a directory of its name.
    pub content_only: bool,
    /// How many levels are read; zero for all of them.
    pub depth: u64,
}

/// The settings that the back-end starts from.
pub open spec fn default_flags() -> CopyFlags {
    CopyFlags {
        overwrite: false,
        skip_exist: false,
        buffer_size: 64000,
        copy_inside: false,
        content_only: false,
        depth: 0,
    }
}

/// The back-end's own defaults, `fs_extra::dir::CopyOptions::new()`, field
/// by field. Not proved: that they are what the back-end documents, every
/// flag unset, a buffer of 64000 bytes and depth zero.
#[verifier::external_body]
fn backend_defaults() -> (flags: CopyFlags)
    ensures
        flags == default_flags(),
{
    let options = fs_extra::dir::CopyOptions::new();
    CopyFlags {
        overwrite: options.overwrite,
        skip_exist: options.skip_exist,
        buffer_size: options.buffer_size,
        copy_inside: options.copy_inside,
        content_only: options.content_only,
        depth: options.depth,
    }
}

impl SyncOptions {
    /// Whether a pass under these options rewrites an entry that the
    /// destination already holds.
    pub open spec fn clobbers(self) -> bool {
        self.overwrite && !self.skip_existing
    }

    /// Whether a pass under these options writes a source entry, given
    /// whether the destination already holds an entry of that name.
    pub open spec fn writes_entry(self, present: bool) -> bool {
        !present || self.clobbers()
    }

    /// The back-end settings that carry out these options: the back-end's
    /// defaults, with the flags of the merge policy set.
    pub open spec fn flags(self) -> CopyFlags {
        CopyFlags {
            overwrite: self.clobbers(),
            skip_exist: self.skip_existing,
            copy_inside: false,
            content_only: self.copy_contents_only,
            ..default_flags()
        }
    }

    /// The options of a mirror pass: nothing that exists is touched, and the
    /// destination receives the contents of the source.
    pub open spec fn mirror_options() -> SyncOptions {
        SyncOptions { overwrite: false, skip_existing: true, copy_contents_only: true }
    }

    /// The options of a mirror pass, [`SyncOptions::mirror_options`].
    pub fn mirror() -> (o: SyncOptions)
        ensures
            o == Self::mirror_options(),
            !o.clobbers(),
    {
        SyncOptions { overwrite: false, skip_existing: true, copy_contents_only: true }
    }

    /// Whether a pass under these options rewrites existing entries.
    pub fn replaces_existing(&self) -> (b: bool)
        ensures
            b == self.clobbers(),
            self.skip_existing ==> !b,
    {
        self.overwrite && !self.skip_existing
    }

    /// Whether a pass under these options writes a source entry, given
    /// whether the destination already holds an entry of that name. An
    /// absent entry is always written.
    pub fn writes(&self, present: bool) -> (b: bool)
        ensures
            b == self.writes_entry(present),
            !present ==> b,
            present && self.skip_existing ==> !b,
    {
        !present || self.replaces_existing()
    }

    /// The settings to hand to the copying back-end. Its `overwrite` flag is
    /// set only when these options rewrite existing entries, so that a
    /// back-end which looks at `overwrite` first still skips under
    /// `skip_existing`. The whole tree is read, whatever its depth.
    pub fn copy_flags(&self) -> (f: CopyFlags)
        ensures
            f == self.flags(),
            self.skip_existing ==> !f.overwrite && f.skip_exist,
            f.depth == 0,
    {
        let mut flags = backend_defaults();
        flags.overwrite = self.replaces_existing();
        flags.skip_exist = self.skip_existing;
        flags.copy_inside = false;
        flags.content_only = self.copy_contents_only;
        flags
    }
}

/// A directory tree as far as a copy pass is concerned: the bytes of each
/// entry, by its path below the root.
pub type Tree = Map<Seq<char>, Seq<u8>>;

/// What the merge policy makes of a destination: the tree in which every
/// entry of the source has been written where the options say so, and
/// everything else is as the destination had it.
pub open spec fn merged(options: SyncOptions, destination: Tree, source: Tree) -> Tree {
    Map::new(
        |path: Seq<char>| destination.dom().contains(path) || source.dom().contains(path),
        |path: Seq<char>|
            if source.dom().contains(path) && options.writes_entry(
                destination.dom().contains(path),
            ) {
                source[path]
            } else {
                destination[path]
            },
    )
}

/// Under options that do not rewrite what exists, every entry that the
/// destination held keeps its bytes.
pub proof fn lemma_merge_keeps_existing(options: SyncOptions, destination: Tree, source: Tree)
    requires
        !options.clobbers(),
    ensures
        forall|path: Seq<char>| #[trigger]
            destination.dom().contains(path) ==> {
                &&& merged(options, destination, source).dom().contains(path)
                &&& merged(options, destination, source)[path] == destination[path]
            },
{
}

/// Every entry that the source holds and the destination did not is there
/// afterwards, with the bytes of the source.
pub proof fn lemma_merge_brings_absent(options: SyncOptions, destination: Tree, source: Tree)
    ensures
        forall|path: Seq<char>|
            #[trigger] source.dom().contains(path) && !destination.dom().contains(path) ==> {
                &&& merged(options, destination, source).dom().contains(path)
                &&& merged(options, destination, source)[path] == source[path]
            },
{
}

/// Merging the same source a second time changes nothing.
pub proof fn lemma_merge_idempotent(options: SyncOptions, destination: Tree, source: Tree)
    ensures
        merged(options, merged(options, destination, source), source) == merged(
            options,
            destination,
            source,
        ),
{
    let once = merged(options, destination, source);
    assert(merged(options, once, source) =~= once);
}

} // verus!
