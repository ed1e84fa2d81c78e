//! Tracing decorators of the key management service stubs.
//!
//! Each decorator holds the stub that does the work; the calls themselves,
//! which await the stub and record a trace, are made by the client runtime.
use vstd::prelude::*;

verus! {

/// A stub of the Autokey service that traces each call it passes on to `inner`.
#[derive(Clone, Debug)]
pub struct Autokey<T> {
    inner: T,
}

impl<T> Autokey<T> {
    /// The stub that calls are passed on to.
    pub closed spec fn wrapped(&self) -> T {
        self.inner
    }

    /// Wraps `inner`.
    pub fn new(inner: T) -> (r: Autokey<T>)
        ensures
            r.wrapped() == inner,
    {
        Autokey { inner }
    }

    /// The stub that calls are passed on to.
    pub fn inner(&self) -> (r: &T)
        ensures
            *r == self.wrapped(),
    {
        &self.inner
    }
}

/// A stub of the Autokey administration service that traces each call it passes on to `inner`.
#[derive(Clone, Debug)]
pub struct AutokeyAdmin<T> {
    inner: T,
}

impl<T> AutokeyAdmin<T> {
    /// The stub that calls are passed on to.
    pub closed spec fn wrapped(&self) -> T {
        self.inner
    }

    /// Wraps `inner`.
    pub fn new(inner: T) -> (r: AutokeyAdmin<T>)
        ensures
            r.wrapped() == inner,
    {
        AutokeyAdmin { inner }
    }

    /// The stub that calls are passed on to.
    pub fn inner(&self) -> (r: &T)
        ensures
            *r == self.wrapped(),
    {
        &self.inner
    }
}

/// A stub of the external key manager service that traces each call it passes on to `inner`.
#[derive(Clone, Debug)]
pub struct EkmService<T> {
    inner: T,
}

impl<T> EkmService<T> {
    /// The stub that calls are passed on to.
    pub closed spec fn wrapped(&self) -> T {
        self.inner
    }

    /// Wraps `inner`.
    pub fn new(inner: T) -> (r: EkmService<T>)
        ensures
            r.wrapped() == inner,
    {
        EkmService { inner }
    }

    /// The stub that calls are passed on to.
    pub fn inner(&self) -> (r: &T)
        ensures
            *r == self.wrapped(),
    {
        &self.inner
    }
}

/// A stub of the key management service that traces each call it passes on to `inner`.
#[derive(Clone, Debug)]
pub struct KeyManagementService<T> {
    inner: T,
}

impl<T> KeyManagementService<T> {
    /// The stub that calls are passed on to.
    pub closed spec fn wrapped(&self) -> T {
        self.inner
    }

    /// Wraps `inner`.
    pub fn new(inner: T) -> (r: KeyManagementService<T>)
        ensures
            r.wrapped() == inner,
    {
        KeyManagementService { inner }
    }

    /// The stub that calls are passed on to.
    pub fn inner(&self) -> (r: &T)
        ensures
            *r == self.wrapped(),
    {
        &self.inner
    }
}

} // verus!
