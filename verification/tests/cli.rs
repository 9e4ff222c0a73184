use feather::cli::printer::{DrawTarget, Printer, Stderr, Stdout};
use feather::cli::{
    default_java_args, Cli, Commands, InitArgs, JavaSelection, DEFAULT_WORKING_DIR,
};

#[test]
fn java_selection_reads_every_word() {
    assert_eq!(JavaSelection::from_str("auto"), Ok(JavaSelection::Auto));
    assert_eq!(JavaSelection::from_str("system"), Ok(JavaSelection::System));
    assert_eq!(
        JavaSelection::from_str("/usr/lib/jvm/java-17/bin/java"),
        Ok(JavaSelection::Custom("/usr/lib/jvm/java-17/bin/java".to_string()))
    );
    assert_eq!(JavaSelection::from_str("Auto"), Ok(JavaSelection::Custom("Auto".to_string())));
    assert_eq!(JavaSelection::from_str(""), Ok(JavaSelection::Custom(String::new())));
    assert_eq!(JavaSelection::default(), JavaSelection::Auto);
}

#[test]
fn default_arguments() {
    let args = default_java_args();
    assert_eq!(args.len(), 19);
    assert_eq!(args[0], "-XX:+UseG1GC");
    assert_eq!(args[2], "-XX:MaxGCPauseMillis=200");
    assert_eq!(args[17], "-Dusing.aikars.flags=https://mcflags.emc.gs");
    assert_eq!(args[18], "-Daikars.new.flags=true");
    assert_eq!(DEFAULT_WORKING_DIR, ".minecraft");
}

#[test]
fn command_line_holds_what_was_asked() {
    let cli = Cli {
        command: Commands::Init(InitArgs {
            file: "pack.mrpack".to_string(),
            working_dir: DEFAULT_WORKING_DIR.to_string(),
            java: JavaSelection::default(),
            java_args: default_java_args(),
        }),
    };
    match cli.command {
        Commands::Init(args) => {
            assert_eq!(args.file, "pack.mrpack");
            assert_eq!(args.working_dir, ".minecraft");
            assert_eq!(args.java, JavaSelection::Auto);
            assert_eq!(args.java_args.len(), 19);
        }
    }
}

#[test]
fn printer_levels() {
    assert_eq!(Printer::Silent.target(), DrawTarget::Hidden);
    assert_eq!(Printer::Quiet.target(), DrawTarget::Hidden);
    assert_eq!(Printer::Default.target(), DrawTarget::Stdout);
    assert_eq!(Printer::Verbose.target(), DrawTarget::Hidden);
    assert_eq!(Printer::Silent.stdout(), Stdout::Disabled);
    assert_eq!(Printer::Quiet.stdout(), Stdout::Disabled);
    assert_eq!(Printer::Default.stdout(), Stdout::Enabled);
    assert_eq!(Printer::Verbose.stdout(), Stdout::Enabled);
    assert_eq!(Printer::Silent.stderr(), Stderr::Disabled);
    assert_eq!(Printer::Quiet.stderr(), Stderr::Disabled);
    assert_eq!(Printer::Default.stderr(), Stderr::Enabled);
    assert_eq!(Printer::Verbose.stderr(), Stderr::Enabled);
}

#[test]
fn streams_write_lines_when_enabled() {
    assert_eq!(Stdout::Enabled.write_str("done"), Some("done\n".to_string()));
    assert_eq!(Stdout::Disabled.write_str("done"), None);
    assert_eq!(Stderr::Enabled.write_str(""), Some("\n".to_string()));
    assert_eq!(Stderr::Disabled.write_str("failed"), None);
}
