//! What is said to the user, and when: the lines are made here and printed
//! elsewhere.

use vstd::prelude::*;

verus! {

/// A line to print, and the stream it goes to.
#[derive(Debug)]
pub enum LogLine {
    /// A line for standard output.
    Stdout(String),
    /// A line for standard error.
    Stderr(String),
}

/// Model of a `LogLine`.
pub enum LogLineView {
    Stdout(Seq<char>),
    Stderr(Seq<char>),
}

impl DeepView for LogLine {
    type V = LogLineView;

    open spec fn deep_view(&self) -> LogLineView {
        match self {
            LogLine::Stdout(text) => LogLineView::Stdout(text@),
            LogLine::Stderr(text) => LogLineView::Stderr(text@),
        }
    }
}

impl View for LogLine {
    type V = LogLineView;

    open spec fn view(&self) -> LogLineView {
        self.deep_view()
    }
}

/// Decides by a verbosity level which messages are said.
#[derive(Clone, Copy, Debug)]
pub struct Logger {
    verbosity: u8,
}

impl Logger {
    /// The verbosity level: 0 is silent, 1 adds information, 2 adds
    /// debugging, 3 adds tracing.
    pub closed spec fn level(&self) -> u8 {
        self.verbosity
    }

    /// Makes a logger of the given verbosity level.
    pub fn new(verbosity: u8) -> (logger: Self)
        ensures
            logger.level() == verbosity,
    {
        Logger { verbosity }
    }

    /// The verbosity level.
    pub fn verbosity(&self) -> (level: u8)
        ensures
            level == self.level(),
    {
        self.verbosity
    }

    /// A piece of information: said from level 1 on, as it is.
    pub fn info(&self, message: &str) -> (line: Option<LogLine>)
        ensures
            line.deep_view() == if self.level() >= 1 {
                Some(LogLineView::Stdout(message@))
            } else {
                None
            },
    {
        if self.verbosity >= 1 {
            Some(LogLine::Stdout(String::from_str(message)))
        } else {
            None
        }
    }

    /// A debugging message: said from level 2 on.
    pub fn debug(&self, message: &str) -> (line: Option<LogLine>)
        ensures
            line.deep_view() == if self.level() >= 2 {
                Some(LogLineView::Stderr("DEBUG: "@ + message@))
            } else {
                None
            },
    {
        if self.verbosity >= 2 {
            let mut text = String::from_str("DEBUG: ");
            text.append(message);
            Some(LogLine::Stderr(text))
        } else {
            None
        }
    }

    /// A tracing message: said from level 3 on.
    pub fn trace(&self, message: &str) -> (line: Option<LogLine>)
        ensures
            line.deep_view() == if self.level() >= 3 {
                Some(LogLineView::Stderr("TRACE: "@ + message@))
            } else {
                None
            },
    {
        if self.verbosity >= 3 {
            let mut text = String::from_str("TRACE: ");
            text.append(message);
            Some(LogLine::Stderr(text))
        } else {
            None
        }
    }

    /// A success: always said.
    pub fn success(&self, message: &str) -> (line: LogLine)
        ensures
            line@ == LogLineView::Stdout("✅ "@ + message@),
    {
        let mut text = String::from_str("✅ ");
        text.append(message);
        LogLine::Stdout(text)
    }

    /// A warning: always said.
    pub fn warning(&self, message: &str) -> (line: LogLine)
        ensures
            line@ == LogLineView::Stderr("⚠️  "@ + message@),
    {
        let mut text = String::from_str("⚠️  ");
        text.append(message);
        LogLine::Stderr(text)
    }

    /// An error: always said.
    pub fn error(&self, message: &str) -> (line: LogLine)
        ensures
            line@ == LogLineView::Stderr("❌ "@ + message@),
    {
        let mut text = String::from_str("❌ ");
        text.append(message);
        LogLine::Stderr(text)
    }
}

} // verus!
