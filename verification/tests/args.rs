use cargo_aur::args::CargoAurArgs;

#[test]
fn args_hold_the_flags() {
    let args = CargoAurArgs {
        help: false,
        version: true,
        args: vec!["aur".to_string()],
        musl: true,
        dryrun: false,
    };
    assert!(args.version && args.musl && !args.help && !args.dryrun);
    assert_eq!(args.clone(), args);
}
