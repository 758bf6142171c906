use browsy_cli::logger::InfoLogger;
use browsy_cli::text_padding::TextPadding;
use colored::Colorize;

#[test]
fn build_log_struct() {
    let have = InfoLogger::new("tittle", "message");
    let want = InfoLogger {
        tittle: "tittle",
        message: "message",
        log: "".to_string(),
    };
    assert_eq!(want, have)
}

#[test]
fn test_log_printing() {
    let _ = InfoLogger::new("tittle", "message").statement().log();
    let _ = InfoLogger::new("tittle", "message").warn().log();
    let _ = InfoLogger::new("tittle", "message").success().log();
    let _ = InfoLogger::new("tittle", "message").fail().log();
}

#[test]
fn test_copy_log_message() {
    let mut target = InfoLogger::new("tittle", "message");
    let want = target.statement().clone().log;
    let have = target.clone_log();

    assert_eq!(want, have)
}

#[test]
fn test_restate_log_info() {
    let have = (
        InfoLogger::new("tittle", "message")
            .restate_log("tittle", "MESSAGE")
            .tittle,
        InfoLogger::new("tittle", "message")
            .restate_log("tittle", "MESSAGE")
            .message,
    );
    let want = InfoLogger::new("tittle", "MESSAGE");

    assert_eq!((want.tittle, want.message), have)
}

#[test]
fn test_log_template_replace() {
    let template = "#$1# #$2#";
    let temp = InfoLogger::new("tittle", "message").statement().clone_log();

    let have = InfoLogger::template_replace(
        template,
        vec![
            (1, "tittle".pad(" ", 1).on_blue().bold().to_string()),
            (2, "message".pad(" ", 1).white().italic().to_string()),
        ],
    );

    assert_eq!(temp, have);

    let template = "#$1# #$2#";
    let temp = InfoLogger::new("tittle", "message").statement().clone_log();

    let have = InfoLogger::template_replace(
        template,
        vec![
            (1, "tittle".pad(" ", 1).on_black().bold().to_string()),
            (2, "messagee".pad(" ", 1).white().on_bright_green().to_string()),
        ],
    );

    assert_ne!(temp, have);

    let template = "#$1# #$2#";
    let temp = InfoLogger::new("tittle", "message").statement().clone_log();

    let have = InfoLogger::template_replace(
        template,
        vec![
            (1, "tittleII".pad(" ", 1).on_blue().bold().to_string()),
            (2, "message###".pad(" ", 1).white().italic().to_string()),
        ],
    );

    assert_ne!(temp, have)
}

#[test]
fn test_inform_macro_simple() {
    InfoLogger::new("Hello", "World").success().log();
    assert!(true)
}

#[test]
fn test_inform_macro_source() {
    let mut s = InfoLogger::new("Sourced", "Log");
    s.restate_log("Hello", "World").fail().log();
    assert!(true)
}

#[test]
fn test_inform_macro_source_no_tittle() {
    let mut s = InfoLogger::new("WARNING", "Log");
    s.restate_log(s.tittle, "Hello").warn().log();
    assert!(true)
}

#[test]
fn test_inform_macro_source_no_message() {
    let mut s = InfoLogger::new("Sourced", "Log");
    s.restate_log("Hello", s.message).statement().log();
    assert!(true)
}

#[test]
fn test_inform_macro_no_message() {
    InfoLogger::new("No message given", "").success().log();
    assert!(true)
}

#[test]
fn test_inform_macro_no_tittle() {
    InfoLogger::new("Info", "No tittle here").statement().log();
    assert!(true)
}

#[test]
fn default_logger_is_empty() {
    let logger = InfoLogger::default();
    assert_eq!(logger.tittle, "");
    assert_eq!(logger.message, "");
    assert_eq!(logger.clone_log(), "".to_string());
    assert_eq!(logger, InfoLogger::new_default());
}
