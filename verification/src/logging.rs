//! The logging capability of the pipeline's driver: three channels, injected
//! rather than global, so a driver can print and a test can look at what was
//! said. The library itself never logs; only the code around it does.

use vstd::prelude::*;
use vstd::string::StringExecFns;

verus! {

/// A sink for the driver's diagnostics: ordinary output, warnings, errors.
/// A console driver prints them; the recording [`PieChartLogger`] keeps
/// them.
pub trait PieChartLog {
    fn output(&mut self, msg: &str);

    fn warning(&mut self, msg: &str);

    fn error(&mut self, msg: &str);
}

/// A logger that keeps every message, channel by channel, in the order it
/// arrived.
pub struct PieChartLogger {
    pub outputs: Vec<String>,
    pub warnings: Vec<String>,
    pub errors: Vec<String>,
}

impl PieChartLogger {
    /// A fresh logger with nothing recorded yet.
    pub fn new() -> (l: PieChartLogger)
        ensures
            l.outputs@.len() == 0,
            l.warnings@.len() == 0,
            l.errors@.len() == 0,
    {
        PieChartLogger { outputs: Vec::new(), warnings: Vec::new(), errors: Vec::new() }
    }
}

impl PieChartLog for PieChartLogger {
    fn output(&mut self, msg: &str) {
        self.outputs.push(String::from_str(msg));
    }

    fn warning(&mut self, msg: &str) {
        self.warnings.push(String::from_str(msg));
    }

    fn error(&mut self, msg: &str) {
        self.errors.push(String::from_str(msg));
    }
}

} // verus!
