use vstd::prelude::*;

verus! {

/// The configuration held after an installation of `value` is attempted in
/// state `current`: the first installation stays, later ones are ignored.
pub open spec fn after_install<T>(current: Option<T>, value: T) -> Option<T> {
    match current {
        Some(first) => Some(first),
        None => Some(value),
    }
}

/// Holds the configuration of the first successful initialization; every
/// later attempt leaves it unchanged and raises no error.
pub struct InitGuard<T> {
    installed: Option<T>,
}

impl<T> InitGuard<T> {
    /// The configuration installed so far, if any.
    pub closed spec fn state(&self) -> Option<T> {
        self.installed
    }

    /// A guard with nothing installed.
    pub fn new() -> (r: Self)
        ensures
            r.state() is None,
    {
        InitGuard { installed: None }
    }

    /// Attempts to install `value`; returns whether this was the first installation.
    pub fn install(&mut self, value: T) -> (first: bool)
        ensures
            first == (old(self).state() is None),
            final(self).state() == after_install(old(self).state(), value),
    {
        if self.installed.is_some() {
            false
        } else {
            self.installed = Some(value);
            true
        }
    }

    /// Whether a configuration has been installed.
    pub fn is_installed(&self) -> (r: bool)
        ensures
            r == (self.state() is Some),
    {
        self.installed.is_some()
    }

    /// The installed configuration, if any.
    pub fn installed(&self) -> (r: Option<&T>)
        ensures
            r is None <==> self.state() is None,
            r is Some ==> *r->0 == self.state()->0,
    {
        self.installed.as_ref()
    }
}

/// Installing again changes nothing: after a first installation of `first`,
/// any later installation leaves the guard holding what the first one left.
pub proof fn lemma_first_install_wins<T>(current: Option<T>, first: T, second: T)
    ensures
        after_install(after_install(current, first), second) == after_install(current, first),
        current is None ==> after_install(after_install(current, first), second) == Some(first),
{
}

} // verus!
