use gst_launch_multi::args::{assign_default_names, decimal, split_groups};
use gst_launch_multi::command::{PipelineSpec, REENTRANT_SOURCE_KIND, SOURCE_OUTPUT_PAD};

fn words(line: &str) -> Vec<String> {
    line.split_whitespace().map(|w| w.to_string()).collect()
}

fn unnamed(desc: &str) -> PipelineSpec {
    PipelineSpec { name: "pipeline_".to_string(), description: words(desc) }
}

#[test]
fn arguments_without_marker_form_one_group() {
    assert_eq!(split_groups(&words("prog --app-name x")), vec![words("prog --app-name x")]);
    assert_eq!(split_groups(&vec![]), vec![Vec::<String>::new()]);
}

#[test]
fn each_marker_opens_a_group() {
    let groups = split_groups(&words("prog --pipeline --name a src ! sink --pipeline src2 ! sink2"));
    assert_eq!(groups, vec![words("prog"), words("--name a src ! sink"), words("src2 ! sink2")]);
}

#[test]
fn adjacent_and_trailing_markers_give_empty_groups() {
    let groups = split_groups(&words("--pipeline --pipeline a --pipeline"));
    assert_eq!(groups, vec![vec![], vec![], words("a"), vec![]]);
}

#[test]
fn decimal_numerals() {
    assert_eq!(decimal(0), "0");
    assert_eq!(decimal(7), "7");
    assert_eq!(decimal(10), "10");
    assert_eq!(decimal(409), "409");
    assert_eq!(decimal(1234567890), "1234567890");
    assert_eq!(decimal(usize::MAX), usize::MAX.to_string());
}

#[test]
fn default_names_are_numbered_from_zero() {
    let specs = vec![
        unnamed("a ! b"),
        PipelineSpec { name: "named".to_string(), description: words("c ! d") },
        unnamed("e"),
    ];
    let named = assign_default_names(&specs);
    assert_eq!(named.len(), 3);
    assert_eq!(named[0].name, "pipeline_0");
    assert_eq!(named[0].description, words("a ! b"));
    assert_eq!(named[1], specs[1]);
    assert_eq!(named[2].name, "pipeline_1");
    assert_eq!(named[2].description, words("e"));
}

#[test]
fn eleven_default_names() {
    let specs: Vec<PipelineSpec> = (0..11).map(|_| unnamed("x")).collect();
    let named = assign_default_names(&specs);
    assert_eq!(named[9].name, "pipeline_9");
    assert_eq!(named[10].name, "pipeline_10");
}

#[test]
fn launch_line_joins_tokens_with_spaces() {
    assert_eq!(unnamed("src ! sink").launch_line(), "src ! sink");
    assert_eq!(unnamed("one").launch_line(), "one");
    assert_eq!(unnamed("").launch_line(), "");
    let spec = unnamed("videotestsrc is-live=true ! intersink");
    assert_eq!(spec.launch_line(), "videotestsrc is-live=true ! intersink");
    assert_eq!(spec.copy(), spec);
}

#[test]
fn names_of_the_reentrant_source() {
    assert_eq!(REENTRANT_SOURCE_KIND, "intersrc");
    assert_eq!(SOURCE_OUTPUT_PAD, "src");
}

#[test]
fn groups_with_markers_between_give_the_arguments_back() {
    for line in ["", "a", "--pipeline", "a --pipeline b c --pipeline --pipeline d", "x y z --pipeline"] {
        let args = words(line);
        let groups = split_groups(&args);
        assert_eq!(groups.len(), args.iter().filter(|a| a.as_str() == "--pipeline").count() + 1);
        assert!(groups.iter().all(|g| g.iter().all(|a| a != "--pipeline")));
        assert_eq!(groups.join(&"--pipeline".to_string()), args);
    }
}
