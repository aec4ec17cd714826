use harmonic::style::{declined_report, failure_report, success_report};

#[test]
fn failure_report_is_the_message_in_red() {
    assert_eq!(failure_report("Cancelled"), "\u{1b}[31mCancelled\u{1b}[39m");
    assert_ne!(failure_report("Cancelled"), "Cancelled");
}

#[test]
fn failure_report_of_nothing_is_only_the_colour() {
    assert_eq!(failure_report(""), "\u{1b}[31m\u{1b}[39m");
}

#[test]
fn failure_report_keeps_the_message_as_it_is() {
    assert_eq!(
        failure_report("two\nlines with ünïcode"),
        "\u{1b}[31mtwo\nlines with ünïcode\u{1b}[39m"
    );
}

#[test]
fn success_report_is_bold_and_green() {
    assert_eq!(
        success_report(),
        "\u{1b}[1m\u{1b}[32mNix was uninstalled successfully!\u{1b}[39m\u{1b}[0m\n"
    );
}

#[test]
fn declined_report_is_plain() {
    assert_eq!(declined_report(), "Okay, didn't do anything! Bye!");
}
