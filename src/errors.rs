//! Failures reported by the loader and by the context lifecycle.

use crate::specifier::{KeyView, ModuleKey};
use vstd::prelude::*;

verus! {

/// A failed module-system request, with the key it concerned.
#[derive(Debug)]
pub enum LoaderError {
    /// The specifier names an external package, or its file could not be read.
    Resolution(ModuleKey),
    /// The source did not compile or evaluate; nothing was registered.
    Compile(ModuleKey),
    /// A module is already registered under this key.
    DuplicateIdentity(ModuleKey),
    /// The referrer's path could not be turned into an absolute file URL.
    InvalidPath(String),
}

/// The mathematical value of a [`LoaderError`].
pub enum LoaderErrorView {
    Resolution(KeyView),
    Compile(KeyView),
    DuplicateIdentity(KeyView),
    InvalidPath(Seq<char>),
}

impl View for LoaderError {
    type V = LoaderErrorView;

    open spec fn view(&self) -> LoaderErrorView {
        match self {
            LoaderError::Resolution(k) => LoaderErrorView::Resolution(k@),
            LoaderError::Compile(k) => LoaderErrorView::Compile(k@),
            LoaderError::DuplicateIdentity(k) => LoaderErrorView::DuplicateIdentity(k@),
            LoaderError::InvalidPath(p) => LoaderErrorView::InvalidPath(p@),
        }
    }
}

/// The view of a loader result whose success value has a view.
pub open spec fn result_view<T: View>(r: Result<T, LoaderError>) -> Result<T::V, LoaderErrorView> {
    match r {
        Ok(v) => Ok(v@),
        Err(e) => Err(e@),
    }
}

/// The view of a loader result whose success value is plain.
pub open spec fn plain_result_view<T>(r: Result<T, LoaderError>) -> Result<T, LoaderErrorView> {
    match r {
        Ok(v) => Ok(v),
        Err(e) => Err(e@),
    }
}

/// A misuse of the per-thread runtime context.
#[derive(Clone, Copy, Debug, PartialEq, Eq, Structural)]
pub enum LifecycleError {
    /// A context already exists, or is being built, on this thread.
    Conflict,
    /// The context was used while not ready, or a value outlived its context.
    UsageViolation,
}

} // verus!
