use vstd::prelude::*;

use crate::error::VersionError;
use crate::version::clone_label;
use crate::version::label_view;
use crate::version::Version;
use crate::version::VersionView;
use crate::version_part::VersionPart;

verus! {

/// Collects the parts of a version; each slot starts out absent.
#[derive(Debug)]
pub struct VersionBuilder {
    pub major: Option<u64>,
    pub minor: Option<u64>,
    pub patch: Option<u64>,
    pub prerelease: Option<String>,
    pub build: Option<String>,
}

/// The mathematical value of a [`VersionBuilder`].
pub ghost struct BuilderView {
    pub major: Option<nat>,
    pub minor: Option<nat>,
    pub patch: Option<nat>,
    pub prerelease: Option<Seq<char>>,
    pub build: Option<Seq<char>>,
}

/// The value of an optional number.
pub open spec fn number_view(number: Option<u64>) -> Option<nat> {
    match number {
        Some(n) => Some(n as nat),
        None => None,
    }
}

impl View for VersionBuilder {
    type V = BuilderView;

    open spec fn view(&self) -> BuilderView {
        BuilderView {
            major: number_view(self.major),
            minor: number_view(self.minor),
            patch: number_view(self.patch),
            prerelease: label_view(self.prerelease),
            build: label_view(self.build),
        }
    }
}

impl BuilderView {
    /// The builder with every slot absent.
    pub open spec fn empty() -> BuilderView {
        BuilderView { major: None, minor: None, patch: None, prerelease: None, build: None }
    }

    /// The first required part that is absent, in the order major, minor,
    /// patch.
    pub open spec fn missing(self) -> Option<VersionPart> {
        if self.major is None {
            Some(VersionPart::Major)
        } else if self.minor is None {
            Some(VersionPart::Minor)
        } else if self.patch is None {
            Some(VersionPart::Patch)
        } else {
            None
        }
    }

    /// The version that a complete builder stands for.
    pub open spec fn version(self) -> VersionView
        recommends
            self.missing() is None,
    {
        VersionView {
            major: self.major->0,
            minor: self.minor->0,
            patch: self.patch->0,
            prerelease: self.prerelease,
            build: self.build,
        }
    }

    /// What finalizing gives: the version, or the first missing part.
    pub open spec fn built(self) -> Result<VersionView, VersionError> {
        match self.missing() {
            Some(part) => Err(VersionError::PartNotFound(part)),
            None => Ok(self.version()),
        }
    }
}

/// The value of a finalizing result.
pub open spec fn result_view(result: Result<Version, VersionError>) -> Result<
    VersionView,
    VersionError,
> {
    match result {
        Ok(version) => Ok(version@),
        Err(error) => Err(error),
    }
}

impl Clone for VersionBuilder {
    fn clone(&self) -> (copy: Self)
        ensures
            copy@ == self@,
    {
        VersionBuilder {
            major: self.major,
            minor: self.minor,
            patch: self.patch,
            prerelease: clone_label(&self.prerelease),
            build: clone_label(&self.build),
        }
    }
}

impl Default for VersionBuilder {
    fn default() -> (builder: Self)
        ensures
            builder@ == BuilderView::empty(),
    {
        VersionBuilder { major: None, minor: None, patch: None, prerelease: None, build: None }
    }
}

impl VersionBuilder {
    /// A builder with every slot absent.
    pub fn new() -> (builder: Self)
        ensures
            builder@ == BuilderView::empty(),
    {
        VersionBuilder { major: None, minor: None, patch: None, prerelease: None, build: None }
    }

    /// Sets the major number; a value set before is overwritten.
    pub fn with_major(self, major: u64) -> (builder: Self)
        ensures
            builder@ == (BuilderView { major: Some(major as nat), ..self@ }),
    {
        let mut builder = self;
        builder.major = Some(major);
        builder
    }

    /// Sets the minor number; a value set before is overwritten.
    pub fn with_minor(self, minor: u64) -> (builder: Self)
        ensures
            builder@ == (BuilderView { minor: Some(minor as nat), ..self@ }),
    {
        let mut builder = self;
        builder.minor = Some(minor);
        builder
    }

    /// Sets the patch number; a value set before is overwritten.
    pub fn with_patch(self, patch: u64) -> (builder: Self)
        ensures
            builder@ == (BuilderView { patch: Some(patch as nat), ..self@ }),
    {
        let mut builder = self;
        builder.patch = Some(patch);
        builder
    }

    /// Sets the prerelease label; a value set before is overwritten.
    pub fn with_prerelease(self, prerelease: &str) -> (builder: Self)
        ensures
            builder@ == (BuilderView { prerelease: Some(prerelease@), ..self@ }),
    {
        let mut builder = self;
        builder.prerelease = Some(prerelease.to_owned());
        builder
    }

    /// Sets the build label; a value set before is overwritten.
    pub fn with_build(self, build: &str) -> (builder: Self)
        ensures
            builder@ == (BuilderView { build: Some(build@), ..self@ }),
    {
        let mut builder = self;
        builder.build = Some(build.to_owned());
        builder
    }

    /// Finalizes: the version if major, minor and patch are set, else the
    /// first of them that is missing.
    pub fn build(self) -> (result: Result<Version, VersionError>)
        ensures
            result_view(result) == self@.built(),
    {
        let major = self.major.ok_or(VersionError::part_not_found(VersionPart::Major))?;
        let minor = self.minor.ok_or(VersionError::part_not_found(VersionPart::Minor))?;
        let patch = self.patch.ok_or(VersionError::part_not_found(VersionPart::Patch))?;
        let prerelease = self.prerelease;
        let build = self.build;
        Ok(Version { major, minor, patch, prerelease, build })
    }
}

} // verus!
