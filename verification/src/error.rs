//! The error values that the decision logic reports.
use vstd::prelude::*;

verus! {

/// An error of application start-up: a validation requirement that the
/// Vulkan installation does not meet, or hardware that cannot run the
/// application. Each carries the message shown to the user.
#[derive(Debug, Clone)]
pub enum AppError {
    /// The validation layers were requested but are not available.
    Validation(String),
    /// No physical device meets the hardware requirements.
    Hardware(String),
}

/// The text of an [`AppError`], by variant.
pub enum AppErrorView {
    Validation(Seq<char>),
    Hardware(Seq<char>),
}

impl View for AppError {
    type V = AppErrorView;

    open spec fn view(&self) -> AppErrorView {
        match self {
            AppError::Validation(m) => AppErrorView::Validation(m@),
            AppError::Hardware(m) => AppErrorView::Hardware(m@),
        }
    }
}

/// A `Result` whose error is an [`AppError`], with the error taken by its view.
pub open spec fn result_view<T>(r: Result<T, AppError>) -> Result<T, AppErrorView> {
    match r {
        Ok(v) => Ok(v),
        Err(e) => Err(e@),
    }
}

impl AppError {
    /// The message the error carries.
    pub fn message(&self) -> (m: String)
        ensures
            m@ == match self@ {
                AppErrorView::Validation(s) => s,
                AppErrorView::Hardware(s) => s,
            },
    {
        match self {
            AppError::Validation(m) => m.clone(),
            AppError::Hardware(m) => m.clone(),
        }
    }
}

} // verus!
