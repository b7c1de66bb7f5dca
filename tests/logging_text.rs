use sphynx::logging::{log_file_line, tagged_message, LogTopic, LogVerbosity};

#[test]
fn topic_tags() {
    assert_eq!(LogTopic::General.to_string(), "[GENERAL]   ");
    assert_eq!(LogTopic::Rendering.to_string(), "[RENDERING] ");
    assert_eq!(LogTopic::Audio.to_string(), "[AUDIO]     ");
    assert_eq!(LogTopic::Networking.to_string(), "[NETWORKING]");
    assert_eq!(LogTopic::Scripting.to_string(), "[SCRIPTING] ");
    assert_eq!(LogTopic::Physics.to_string(), "[PHYSICS]   ");
    assert_eq!(LogTopic::UI.to_string(), "[UI]        ");
}

#[test]
fn verbosity_tags() {
    assert_eq!(LogVerbosity::Info.to_string(), "INFO");
    assert_eq!(LogVerbosity::Warning.to_string(), "WARN");
    assert_eq!(LogVerbosity::Error.to_string(), "ERR ");
}

#[test]
fn console_and_file_lines() {
    assert_eq!(tagged_message(LogTopic::UI, "hello"), "[UI]         hello");
    assert_eq!(
        log_file_line(LogVerbosity::Warning, LogTopic::Rendering, "Vulkan: gpu"),
        "WARN [RENDERING]  Vulkan: gpu\n"
    );
    assert_eq!(
        log_file_line(LogVerbosity::Error, LogTopic::General, ""),
        "ERR  [GENERAL]    \n"
    );
}
