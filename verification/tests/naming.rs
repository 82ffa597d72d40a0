use fetchlist::config::output_file_name;

#[test]
fn my_report_filename() {
    assert_eq!(output_file_name("My Report"), "My_Report.txt");
}

#[test]
fn every_space_is_replaced() {
    assert_eq!(output_file_name("a b c d"), "a_b_c_d.txt");
}

#[test]
fn no_spaces_means_only_the_suffix_changes() {
    assert_eq!(output_file_name("report"), "report.txt");
}

#[test]
fn empty_title_gives_bare_suffix() {
    assert_eq!(output_file_name(""), ".txt");
}

#[test]
fn underscores_and_other_characters_are_kept() {
    assert_eq!(output_file_name("a_b-c.d e"), "a_b-c.d_e.txt");
}

#[test]
fn non_ascii_characters_are_kept() {
    assert_eq!(output_file_name("café notes"), "café_notes.txt");
}
