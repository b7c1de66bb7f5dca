//! Log topics, verbosity levels and the text of a log-file line.
use vstd::prelude::*;
use vstd::string::StringExecFns;

verus! {

/// The subsystem that a log message concerns.
#[derive(Debug, Copy, Clone, PartialEq, Eq, Structural)]
pub enum LogTopic {
    General,
    Rendering,
    Audio,
    Networking,
    Scripting,
    Physics,
    UI,
}

/// The fixed-width tag printed for a topic.
pub open spec fn topic_label(topic: LogTopic) -> Seq<char> {
    match topic {
        LogTopic::General => "[GENERAL]   "@,
        LogTopic::Rendering => "[RENDERING] "@,
        LogTopic::Audio => "[AUDIO]     "@,
        LogTopic::Networking => "[NETWORKING]"@,
        LogTopic::Scripting => "[SCRIPTING] "@,
        LogTopic::Physics => "[PHYSICS]   "@,
        LogTopic::UI => "[UI]        "@,
    }
}

impl LogTopic {
    pub fn to_string(self) -> (r: &'static str)
        ensures
            r@ == topic_label(self),
    {
        match self {
            LogTopic::General => "[GENERAL]   ",
            LogTopic::Rendering => "[RENDERING] ",
            LogTopic::Audio => "[AUDIO]     ",
            LogTopic::Networking => "[NETWORKING]",
            LogTopic::Scripting => "[SCRIPTING] ",
            LogTopic::Physics => "[PHYSICS]   ",
            LogTopic::UI => "[UI]        ",
        }
    }
}

/// How severe a log message is.
#[derive(Debug, Copy, Clone, PartialEq, Eq, Structural)]
pub enum LogVerbosity {
    Info,
    Warning,
    Error,
}

/// The four-character tag written for a verbosity level.
pub open spec fn verbosity_label(verbosity: LogVerbosity) -> Seq<char> {
    match verbosity {
        LogVerbosity::Info => "INFO"@,
        LogVerbosity::Warning => "WARN"@,
        LogVerbosity::Error => "ERR "@,
    }
}

impl LogVerbosity {
    pub fn to_string(self) -> (r: &'static str)
        ensures
            r@ == verbosity_label(self),
    {
        match self {
            LogVerbosity::Info => "INFO",
            LogVerbosity::Warning => "WARN",
            LogVerbosity::Error => "ERR ",
        }
    }
}

/// The message as shown on the console: topic tag, a space, the text.
pub open spec fn console_message(topic: LogTopic, text: Seq<char>) -> Seq<char> {
    topic_label(topic) + " "@ + text
}

/// A whole line of the log file: verbosity tag, a space, the console message,
/// and a line break.
pub open spec fn file_line(verbosity: LogVerbosity, topic: LogTopic, text: Seq<char>) -> Seq<char> {
    verbosity_label(verbosity) + " "@ + console_message(topic, text) + "\n"@
}

/// The topic-tagged message, as the console shows it.
pub fn tagged_message(topic: LogTopic, text: &str) -> (r: String)
    ensures
        r@ == console_message(topic, text@),
{
    let mut r = String::from_str(topic.to_string());
    r.append(" ");
    r.append(text);
    r
}

/// The line appended to the log file for one message.
pub fn log_file_line(verbosity: LogVerbosity, topic: LogTopic, text: &str) -> (r: String)
    ensures
        r@ == file_line(verbosity, topic, text@),
{
    let message = tagged_message(topic, text);
    let mut r = String::from_str(verbosity.to_string());
    r.append(" ");
    r.append(message.as_str());
    r.append("\n");
    proof {
        assert(r@ =~= file_line(verbosity, topic, text@));
    }
    r
}

} // verus!
