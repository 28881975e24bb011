use rsfunge::cli::{
    exit_code_of, interpret_cli, parse_cli, parse_dialect, run_options_from, start, ArgError,
    DialectOption, Start, EXIT_CODE_BAD_ARGUMENTS,
};
use rsfunge::final_ref::Final;
use rsfunge::utils::humanize::format_humaized_list;
use rsfunge::FungeDialect;

fn args(list: &[&str]) -> Vec<String> {
    list.iter().map(|s| String::from(*s)).collect()
}

#[test]
fn dialects_have_a_short_and_a_long_name() {
    let names = [
        ("b93", FungeDialect::Befunge93),
        ("befunge93", FungeDialect::Befunge93),
        ("u98", FungeDialect::Unefunge98),
        ("unefunge98", FungeDialect::Unefunge98),
        ("b98", FungeDialect::Befunge98),
        ("befunge98", FungeDialect::Befunge98),
        ("t98", FungeDialect::Trefunge98),
        ("trefunge98", FungeDialect::Trefunge98),
    ];
    for (name, dialect) in names {
        assert_eq!(parse_dialect(name).unwrap(), DialectOption::Specific(dialect));
    }
}

#[test]
fn an_unknown_dialect_is_named_in_the_error() {
    for name in ["", "B98", "b98 ", "funge", "b9"] {
        let error = parse_dialect(name).unwrap_err();
        assert_eq!(error.message(), format!("Unknown funge dialect '{}'", name));
    }
}

#[test]
fn dialects_tell_their_dimensions() {
    assert_eq!(FungeDialect::Unefunge98.dimensionality(), 1);
    assert_eq!(FungeDialect::Befunge93.dimensionality(), 2);
    assert_eq!(FungeDialect::Befunge98.dimensionality(), 2);
    assert_eq!(FungeDialect::Trefunge98.dimensionality(), 3);
}

#[test]
fn options_from_values() {
    let options = run_options_from(Some("t98"), Some("a.tf")).ok().unwrap();
    assert_eq!(options.source_file(), "a.tf");
    assert_eq!(options.dialect_mode(), DialectOption::Specific(FungeDialect::Trefunge98));
    let options = run_options_from(None, Some("a.bf")).ok().unwrap();
    assert_eq!(options.source_file(), "a.bf");
    assert_eq!(options.dialect_mode(), DialectOption::Unknown);
}

#[test]
fn options_need_a_source_file() {
    let error = run_options_from(Some("b98"), None).err().unwrap();
    assert_eq!(error.message(), "Source file must be specified");
    let error = run_options_from(None, None).err().unwrap();
    assert_eq!(error.message(), "Source file must be specified");
}

#[test]
fn an_unknown_dialect_comes_before_a_missing_source_file() {
    let error = run_options_from(Some("x"), None).err().unwrap();
    assert_eq!(error.message(), "Unknown funge dialect 'x'");
    let error = run_options_from(Some("x"), Some("a.bf")).err().unwrap();
    assert_eq!(error.message(), "Unknown funge dialect 'x'");
}

#[test]
fn a_command_line_that_was_turned_down() {
    let error = interpret_cli(None).err().unwrap();
    assert_eq!(error.message(), "Failed to parse");
}

#[test]
fn values_of_a_command_line() {
    let options =
        interpret_cli(Some((Some(String::from("b93")), Some(String::from("p.bf"))))).ok().unwrap();
    assert_eq!(options.source_file(), "p.bf");
    assert_eq!(options.dialect_mode(), DialectOption::Specific(FungeDialect::Befunge93));
    let error = interpret_cli(Some((None, None))).err().unwrap();
    assert_eq!(error.message(), "Source file must be specified");
    let error = interpret_cli(Some((Some(String::from("q")), None))).err().unwrap();
    assert_eq!(error.message(), "Unknown funge dialect 'q'");
}

#[test]
fn a_whole_command_line() {
    let options = parse_cli(&args(&["rsfunge", "-d", "b98", "prog.bf"])).ok().unwrap();
    assert_eq!(options.source_file(), "prog.bf");
    assert_eq!(options.dialect_mode(), DialectOption::Specific(FungeDialect::Befunge98));
    let options = parse_cli(&args(&["rsfunge", "prog.tf", "--dialect", "trefunge98"])).ok().unwrap();
    assert_eq!(options.source_file(), "prog.tf");
    assert_eq!(options.dialect_mode(), DialectOption::Specific(FungeDialect::Trefunge98));
    let options = parse_cli(&args(&["rsfunge", "--dialect=u98", "prog.uf"])).ok().unwrap();
    assert_eq!(options.dialect_mode(), DialectOption::Specific(FungeDialect::Unefunge98));
    let options = parse_cli(&args(&["rsfunge", "prog.bf"])).ok().unwrap();
    assert_eq!(options.source_file(), "prog.bf");
    assert_eq!(options.dialect_mode(), DialectOption::Unknown);
}

#[test]
fn a_command_line_that_clap_turns_down() {
    for list in [
        vec!["rsfunge"],
        vec!["rsfunge", "-d", "b98"],
        vec!["rsfunge", "a.bf", "b.bf"],
        vec!["rsfunge", "--nothing", "a.bf"],
        vec!["rsfunge", "a.bf", "-d"],
    ] {
        let error = parse_cli(&args(&list)).err().unwrap();
        assert_eq!(error.message(), "Failed to parse", "{:?}", list);
    }
}

#[test]
fn a_command_line_with_an_unknown_dialect() {
    let error = parse_cli(&args(&["rsfunge", "-d", "xx", "prog.bf"])).err().unwrap();
    assert_eq!(error.message(), "Unknown funge dialect 'xx'");
}

#[test]
fn an_error_keeps_its_message() {
    let error = ArgError::new(String::from("no"));
    assert_eq!(error.message(), "no");
    assert_eq!(format!("{:?}", DialectOption::Unknown), "Unknown");
}

#[test]
fn lists_for_a_reader() {
    assert_eq!(format_humaized_list(&[]), "");
    assert_eq!(format_humaized_list(&["1"]), "1");
    assert_eq!(format_humaized_list(&["1", "2"]), "1 and 2");
    assert_eq!(format_humaized_list(&["1", "2", "3"]), "1, 2 and 3");
    assert_eq!(format_humaized_list(&["1", "2", "3", "4"]), "1, 2, 3 and 4");
    assert_eq!(format_humaized_list(&["", ""]), " and ");
}

#[test]
fn a_kept_value_can_be_read() {
    let kept = Final::new(vec![1, 2, 3]);
    assert_eq!(kept.len(), 3);
    assert_eq!(*kept, vec![1, 2, 3]);
    let kept = Final::new(5u8);
    assert_eq!(*kept + 1, 6);
}

#[test]
fn a_wrong_command_line_ends_the_process() {
    assert_eq!(EXIT_CODE_BAD_ARGUMENTS, -1);
    match start(&args(&["rsfunge"])) {
        Start::Refuse(error, exit_code) => {
            assert_eq!(error.message(), "Failed to parse");
            assert_eq!(exit_code, -1);
        }
        Start::Run(_) => panic!("nothing is to be run"),
    }
    match start(&args(&["rsfunge", "-d", "nope", "a.bf"])) {
        Start::Refuse(error, exit_code) => {
            assert_eq!(error.message(), "Unknown funge dialect 'nope'");
            assert_eq!(exit_code, -1);
        }
        Start::Run(_) => panic!("nothing is to be run"),
    }
}

#[test]
fn a_right_command_line_starts_a_run() {
    match start(&args(&["rsfunge", "-d", "t98", "dir/a.tf"])) {
        Start::Run(options) => {
            let source = options.code_source();
            assert_eq!(source.get_path(), "dir/a.tf");
            assert_eq!(source.get_dialect(), Some(FungeDialect::Trefunge98));
        }
        Start::Refuse(_, _) => panic!("the program is to be run"),
    }
    match start(&args(&["rsfunge", "a.bf"])) {
        Start::Run(options) => {
            let source = options.code_source();
            assert_eq!(source.get_path(), "a.bf");
            assert_eq!(source.get_dialect(), None);
        }
        Start::Refuse(_, _) => panic!("the program is to be run"),
    }
}

#[test]
fn the_exit_code_of_a_run() {
    assert_eq!(exit_code_of(None), 0);
    assert_eq!(exit_code_of(Some(0)), 0);
    assert_eq!(exit_code_of(Some(7)), 7);
    assert_eq!(exit_code_of(Some(-3)), -3);
}
