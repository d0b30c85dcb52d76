use macro_pub::probe::{decode_flags, supported, Argument, ProbeOutcome, Prober, SelfCheck};
use macro_pub::probe::{CAPABILITY, FEATURE_SNIPPET, FLAG_SEPARATOR, NO_STD_HEADER};

fn text(s: &str) -> Argument {
    Argument::Text(s.to_string())
}

#[test]
fn no_flags_in_an_empty_text() {
    assert_eq!(decode_flags(""), Vec::<String>::new());
}

#[test]
fn flags_are_split_at_the_unit_separator() {
    assert_eq!(FLAG_SEPARATOR, '\x1f');
    assert_eq!(decode_flags("-Cdebuginfo=2"), vec!["-Cdebuginfo=2"]);
    assert_eq!(
        decode_flags("--cfg\x1ffoo\x1f-C\x1ftarget-cpu=native"),
        vec!["--cfg", "foo", "-C", "target-cpu=native"]
    );
    assert_eq!(decode_flags("a b\x1fc,d"), vec!["a b", "c,d"]);
}

#[test]
fn empty_fields_are_kept() {
    assert_eq!(decode_flags("\x1f"), vec!["", ""]);
    assert_eq!(decode_flags("a\x1f"), vec!["a", ""]);
    assert_eq!(decode_flags("\x1fa"), vec!["", "a"]);
    assert_eq!(decode_flags("a\x1f\x1fb"), vec!["a", "", "b"]);
}

#[test]
fn flags_may_hold_any_character() {
    assert_eq!(
        decode_flags("--remap-path-prefix=/höme/ü=/x\x1f-L\x1f/日本語/lib"),
        vec!["--remap-path-prefix=/höme/ü=/x", "-L", "/日本語/lib"]
    );
}

#[test]
fn decoding_agrees_with_splitting() {
    for encoded in ["x", "a\x1fb\x1fc", "\x1f\x1f", "one two\x1fthree", "é\x1f\x1fß\x1f"] {
        let expected: Vec<String> = encoded.split('\x1f').map(str::to_string).collect();
        assert_eq!(decode_flags(encoded), expected);
        assert_eq!(decode_flags(encoded).join("\x1f"), encoded);
    }
}

#[test]
fn a_new_prober_starts_with_the_standard_runtime() {
    let prober = Prober::new("-O\x1f-g", true);
    assert_eq!(
        prober,
        Prober {
            flags: vec!["-O".to_string(), "-g".to_string()],
            has_target: true,
            no_std: false,
            next_id: 0,
        }
    );
    assert_eq!(Prober::new("", false).flags, Vec::<String>::new());
}

#[test]
fn command_line_without_target() {
    let mut prober = Prober::new("", false);
    assert_eq!(
        prober.command(),
        vec![
            text("--crate-name"),
            text("probe0"),
            text("--crate-type=lib"),
            text("--out-dir"),
            Argument::OutDir,
            text("--emit=llvm-ir"),
            text("-"),
        ]
    );
}

#[test]
fn command_line_with_target_and_flags() {
    let mut prober = Prober::new("--cfg\x1ffoo", true);
    prober.next_id = 12;
    assert_eq!(
        prober.command(),
        vec![
            text("--crate-name"),
            text("probe12"),
            text("--crate-type=lib"),
            text("--out-dir"),
            Argument::OutDir,
            text("--emit=llvm-ir"),
            text("--target"),
            Argument::Target,
            text("--cfg"),
            text("foo"),
            text("-"),
        ]
    );
    assert_eq!(prober.next_id, 13);
    assert_eq!(prober.flags, vec!["--cfg", "foo"]);
}

#[test]
fn each_probe_gets_its_own_identifier() {
    let mut prober = Prober::new("", false);
    for id in 0..5 {
        assert_eq!(prober.next_id, id);
        let arguments = prober.command();
        assert_eq!(arguments[1], text(&format!("probe{}", id)));
    }
    prober.next_id = usize::MAX;
    let arguments = prober.command();
    assert_eq!(arguments[1], text(&format!("probe{}", usize::MAX)));
    assert_eq!(prober.next_id, 0);
}

#[test]
fn the_input_is_the_snippet_behind_the_header() {
    let mut prober = Prober::new("", false);
    assert_eq!(prober.input(""), "");
    assert_eq!(prober.input("fn f() {}"), "fn f() {}");
    prober.no_std = true;
    assert_eq!(NO_STD_HEADER, "#![no_std]\n");
    assert_eq!(prober.input(""), "#![no_std]\n");
    assert_eq!(prober.input("fn f() {}"), "#![no_std]\nfn f() {}");
}

#[test]
fn only_a_compiled_snippet_is_supported() {
    assert!(supported(ProbeOutcome::Compiled));
    assert!(!supported(ProbeOutcome::Rejected));
    assert!(!supported(ProbeOutcome::NotRun));
}

#[test]
fn self_check_settles_on_the_standard_runtime() {
    let mut prober = Prober::new("-g", true);
    let next = prober.record_self_check(SelfCheck::WithStd, ProbeOutcome::Compiled);
    assert_eq!(next, SelfCheck::Settled { warn: false });
    assert!(!prober.no_std);
    assert_eq!(prober.flags, vec!["-g"]);
    assert!(prober.has_target);
}

#[test]
fn self_check_falls_back_to_no_runtime() {
    let mut prober = Prober::new("", false);
    let next = prober.record_self_check(SelfCheck::WithStd, ProbeOutcome::Rejected);
    assert_eq!(next, SelfCheck::WithoutStd);
    assert!(prober.no_std);
    let next = prober.record_self_check(next, ProbeOutcome::Compiled);
    assert_eq!(next, SelfCheck::Settled { warn: false });
    assert!(prober.no_std);
}

#[test]
fn self_check_warns_where_neither_compiles() {
    let mut prober = Prober::new("", false);
    let next = prober.record_self_check(SelfCheck::WithStd, ProbeOutcome::NotRun);
    assert_eq!(next, SelfCheck::WithoutStd);
    let next = prober.record_self_check(next, ProbeOutcome::Rejected);
    assert_eq!(next, SelfCheck::Settled { warn: true });
    assert!(!prober.no_std);
}

#[test]
fn a_settled_self_check_stays_settled() {
    for warn in [false, true] {
        for no_std in [false, true] {
            for outcome in [ProbeOutcome::Compiled, ProbeOutcome::Rejected, ProbeOutcome::NotRun] {
                let mut prober = Prober::new("", false);
                prober.no_std = no_std;
                let next = prober.record_self_check(SelfCheck::Settled { warn }, outcome);
                assert_eq!(next, SelfCheck::Settled { warn });
                assert_eq!(prober.no_std, no_std);
            }
        }
    }
}

#[test]
fn self_check_does_not_use_up_identifiers() {
    let mut prober = Prober::new("", false);
    prober.next_id = 3;
    prober.record_self_check(SelfCheck::WithStd, ProbeOutcome::Rejected);
    assert_eq!(prober.next_id, 3);
}

#[test]
fn the_feature_snippet_declares_two_like_arms() {
    assert_eq!(CAPABILITY, "has_simple_decl_macro");
    assert!(FEATURE_SNIPPET.contains("#![feature(decl_macro, rustc_attrs)]"));
    assert!(FEATURE_SNIPPET.contains("#[rustc_macro_transparency = \"semitransparent\"]"));
    assert!(FEATURE_SNIPPET.contains("pub macro m {"));
    assert_eq!(FEATURE_SNIPPET.matches("() => {},").count(), 2);
}
