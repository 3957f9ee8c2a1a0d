//! The settings of one run, checked before any scan starts.

use vstd::prelude::*;

verus! {

/// Why the settings of a run were refused.
#[derive(PartialEq, Eq, Structural, Clone, Copy, Debug)]
pub enum ArgError {
    /// Copying the media files was asked for, but no target directory was given.
    CopyWithoutTarget,
}

/// The settings of a run: the source directory, an optional target directory,
/// and whether the media files are copied there.
pub struct RunOptions {
    source: String,
    target_dir: Option<String>,
    copy_media_files: bool,
}

pub ghost struct RunOptionsView {
    pub source: Seq<char>,
    pub target_dir: Option<Seq<char>>,
    pub copy_media_files: bool,
}

pub open spec fn option_view(o: Option<String>) -> Option<Seq<char>> {
    match o {
        Some(s) => Some(s@),
        None => None,
    }
}

impl View for RunOptions {
    type V = RunOptionsView;

    closed spec fn view(&self) -> RunOptionsView {
        RunOptionsView {
            source: self.source@,
            target_dir: option_view(self.target_dir),
            copy_media_files: self.copy_media_files,
        }
    }
}

impl RunOptions {
    /// Copying is only ever asked for together with a target directory.
    pub open spec fn wf(&self) -> bool {
        self@.copy_media_files ==> self@.target_dir is Some
    }

    /// Checks the settings: copying the media files needs a target directory.
    pub fn new(source: String, target_dir: Option<String>, copy_media_files: bool) -> (r: Result<
        RunOptions,
        ArgError,
    >)
        ensures
            r is Err <==> copy_media_files && target_dir is None,
            r matches Err(e) ==> e == ArgError::CopyWithoutTarget,
            r matches Ok(o) ==> o.wf() && o@ == (RunOptionsView {
                source: source@,
                target_dir: option_view(target_dir),
                copy_media_files,
            }),
    {
        if copy_media_files && target_dir.is_none() {
            return Err(ArgError::CopyWithoutTarget);
        }
        Ok(RunOptions { source, target_dir, copy_media_files })
    }

    pub fn source(&self) -> (r: &String)
        ensures
            r@ == self@.source,
    {
        &self.source
    }

    pub fn target_dir(&self) -> (r: &Option<String>)
        ensures
            option_view(*r) == self@.target_dir,
    {
        &self.target_dir
    }

    pub fn copy_media_files(&self) -> (r: bool)
        ensures
            r == self@.copy_media_files,
    {
        self.copy_media_files
    }
}

} // verus!
