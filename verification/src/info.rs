//! The descriptor an accessor gives of itself.

use vstd::prelude::*;

verus! {

/// What an accessor says about the backend behind it.
#[derive(Clone, Debug, PartialEq, Eq)]
pub struct AccessorInfo {
    scheme: String,
}

/// An [`AccessorInfo`] as a mathematical value.
pub struct AccessorInfoView {
    /// The short name of the backend, such as `s3` or `fs`.
    pub scheme: Seq<char>,
}

impl View for AccessorInfo {
    type V = AccessorInfoView;

    closed spec fn view(&self) -> AccessorInfoView {
        AccessorInfoView { scheme: self.scheme@ }
    }
}

impl AccessorInfo {
    /// The descriptor of a backend named `scheme`.
    pub fn new(scheme: &str) -> (info: AccessorInfo)
        ensures
            info@.scheme == scheme@,
    {
        AccessorInfo { scheme: scheme.to_owned() }
    }

    /// The short name of the backend.
    pub fn scheme(&self) -> (scheme: &str)
        ensures
            scheme@ == self@.scheme,
    {
        self.scheme.as_str()
    }

    /// Renames the backend.
    pub fn set_scheme(&mut self, scheme: &str)
        ensures
            final(self)@.scheme == scheme@,
    {
        self.scheme = scheme.to_owned();
    }
}

impl Default for AccessorInfo {
    /// The descriptor of a backend that has not been named yet.
    fn default() -> (info: AccessorInfo)
        ensures
            info@.scheme == Seq::<char>::empty(),
    {
        AccessorInfo { scheme: String::new() }
    }
}

} // verus!
