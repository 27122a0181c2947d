//! The query-analysis channel's message types and its UI-owned result
//! state holder.

use vstd::prelude::*;
use vstd::string::StringExecFns;

verus! {

/// A progress message from the background analysis task.
pub enum AnalysisChannel {
    Data(usize),
}

/// Why an analysis attempt failed.
pub enum AnalysisErrCause {
    Data(String),
}

/// The terminal payload of a successful analysis attempt.
pub enum AnalysisContainer {
    Data(String),
}

/// The three distinguishable terminal outcomes of an analysis attempt.
pub enum AnalysisTerminal {
    Success(AnalysisContainer),
    Typed(AnalysisErrCause),
    Abnormal(String),
}

/// UI-owned record of the latest analysis result.
pub struct AnalysisResponseData {
    pub data: Option<String>,
    pub is_running: bool,
    pub error: Option<String>,
}

impl Default for AnalysisResponseData {
    /// The state before any analysis: no result, no error, nothing running.
    fn default() -> (d: Self)
        ensures
            d.data is None,
            !d.is_running,
            d.error is None,
    {
        AnalysisResponseData { data: None, is_running: false, error: None }
    }
}

impl AnalysisResponseData {
    /// Stores the reply of a successful analysis and clears any stale error.
    pub fn set_data(&mut self, data: String)
        ensures
            final(self).data == Some(data),
            final(self).error is None,
            final(self).is_running == old(self).is_running,
    {
        self.error = None;
        self.data = Some(data);
    }

    /// Stores the error message of a failed analysis and clears any stale
    /// result.
    pub fn set_error(&mut self, e: String)
        ensures
            final(self).error == Some(e),
            final(self).data is None,
            final(self).is_running == old(self).is_running,
    {
        self.data = None;
        self.error = Some(e);
    }

    /// Applies the terminal outcome of an analysis attempt, as the UI's
    /// per-frame drain does.
    pub fn finalize(&mut self, terminal: AnalysisTerminal)
        ensures
            match terminal {
                AnalysisTerminal::Success(AnalysisContainer::Data(d)) => final(self).data == Some(
                    d,
                ) && final(self).error is None,
                AnalysisTerminal::Typed(AnalysisErrCause::Data(e)) => final(self).error == Some(e)
                    && final(self).data is None,
                AnalysisTerminal::Abnormal(e) => final(self).error == Some(e) && final(self).data is None,
            },
            final(self).is_running == old(self).is_running,
    {
        match terminal {
            AnalysisTerminal::Success(AnalysisContainer::Data(d)) => self.set_data(d),
            AnalysisTerminal::Typed(AnalysisErrCause::Data(e)) => self.set_error(e),
            AnalysisTerminal::Abnormal(e) => self.set_error(e),
        }
    }
}

/// Decides the terminal outcome of an analysis request from whether the
/// server replied with a success status.
pub fn analysis_outcome(status_success: bool) -> (r: Result<AnalysisContainer, String>)
    ensures
        status_success ==> (r matches Ok(AnalysisContainer::Data(d)) && d@ == "Hello"@),
        !status_success ==> (r matches Err(e) && e@ == "Bad Call"@),
{
    if status_success {
        Ok(AnalysisContainer::Data(String::from_str("Hello")))
    } else {
        Err(String::from_str("Bad Call"))
    }
}

} // verus!
