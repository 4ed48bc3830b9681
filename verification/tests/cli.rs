use rhino_config::cli::{
    answer, interactive_features, is_affirmative, is_blank, is_offered, Cli, Commands,
    DisableCommand, DisableKernel,
    EnableCommand, EnableKernel, SwitchKernel, XanmodVariants,
};
use rhino_config::engine::ToggleRequest;
use rhino_config::feature::{Direction, Feature};

#[test]
fn enable_flags_are_served_snap_removal_first() {
    let cli = Cli {
        command: Commands::Enable(EnableCommand { interactive: false, pacstall: true, snapdpurge: true }),
    };
    assert_eq!(
        cli.requests(),
        vec![
            ToggleRequest::single(Feature::Snapdpurge, Direction::Enable),
            ToggleRequest::single(Feature::Pacstall, Direction::Enable),
        ]
    );
    assert!(!cli.is_interactive());
}

#[test]
fn enable_with_one_flag_is_one_request() {
    let cli = Cli {
        command: Commands::Enable(EnableCommand { interactive: false, pacstall: true, snapdpurge: false }),
    };
    assert_eq!(
        cli.requests(),
        vec![ToggleRequest::single(Feature::Pacstall, Direction::Enable)]
    );
}

#[test]
fn interactive_enable_has_no_request_of_its_own() {
    let cli = Cli {
        command: Commands::Enable(EnableCommand { interactive: true, pacstall: false, snapdpurge: false }),
    };
    assert!(cli.requests().is_empty());
    assert!(cli.is_interactive());
}

#[test]
fn disable_flags_are_served_snap_removal_first() {
    let cli = Cli {
        command: Commands::Disable(DisableCommand { pacstall: true, snapdpurge: true }),
    };
    assert_eq!(
        cli.requests(),
        vec![
            ToggleRequest::single(Feature::Snapdpurge, Direction::Disable),
            ToggleRequest::single(Feature::Pacstall, Direction::Disable),
        ]
    );
    assert!(!cli.is_interactive());
}

#[test]
fn switch_kernel_is_one_request() {
    let variants = XanmodVariants {
        stable: false,
        edge: true,
        lts: false,
        realtime: false,
        tasktype: true,
        realtime_edge: false,
    };
    let cli = Cli {
        command: Commands::SwitchKernel(SwitchKernel::Enable(EnableKernel::Xanmod(variants))),
    };
    assert_eq!(
        cli.requests(),
        vec![ToggleRequest { feature: Feature::Xanmod, variants, direction: Direction::Enable }]
    );
    let cli = Cli { command: Commands::SwitchKernel(SwitchKernel::Enable(EnableKernel::Liquorix)) };
    assert_eq!(
        cli.requests(),
        vec![ToggleRequest::single(Feature::Liquorix, Direction::Enable)]
    );
    let cli = Cli { command: Commands::SwitchKernel(SwitchKernel::Enable(EnableKernel::Libre)) };
    assert_eq!(
        cli.requests(),
        vec![ToggleRequest::single(Feature::Libre, Direction::Enable)]
    );
    let cli = Cli {
        command: Commands::SwitchKernel(SwitchKernel::Disable(DisableKernel::Xanmod(variants))),
    };
    assert_eq!(
        cli.requests(),
        vec![ToggleRequest::xanmod(variants, Direction::Disable)]
    );
    let cli = Cli { command: Commands::SwitchKernel(SwitchKernel::Disable(DisableKernel::Liquorix)) };
    assert_eq!(
        cli.requests(),
        vec![ToggleRequest::single(Feature::Liquorix, Direction::Disable)]
    );
    let cli = Cli { command: Commands::SwitchKernel(SwitchKernel::Disable(DisableKernel::Libre)) };
    assert_eq!(
        cli.requests(),
        vec![ToggleRequest::single(Feature::Libre, Direction::Disable)]
    );
}

#[test]
fn interactive_features_come_in_a_fixed_order() {
    assert_eq!(
        interactive_features(false),
        vec![Feature::Snapdpurge, Feature::Pacstall]
    );
    assert_eq!(
        interactive_features(true),
        vec![Feature::Snapdpurge, Feature::Pacstall, Feature::Mainline]
    );
}

#[test]
fn replies_that_mean_yes() {
    assert!(is_affirmative(""));
    assert!(is_affirmative("\n"));
    assert!(is_affirmative("y\n"));
    assert!(is_affirmative("Y\n"));
    assert!(is_affirmative("  y \r\n"));
    assert!(is_affirmative(" \t "));
    assert!(is_affirmative("\u{a0}Y\u{3000}"));
}

#[test]
fn replies_that_mean_no() {
    assert!(!is_affirmative("n\n"));
    assert!(!is_affirmative("N"));
    assert!(!is_affirmative("yes\n"));
    assert!(!is_affirmative("yy"));
    assert!(!is_affirmative("y y"));
    assert!(!is_affirmative("no"));
    assert!(!is_affirmative("\u{ff59}"));
    assert!(!is_affirmative("ny"));
}

#[test]
fn replies_agree_with_trimming_and_upper_casing() {
    for reply in ["", "y", "Y", " y", "y ", "n", "yes", "\ty\n", "\u{2003}", "\u{200b}", "x y", "ÿ"] {
        let upper = reply.trim().to_uppercase();
        assert_eq!(is_affirmative(reply), upper == "Y" || upper.is_empty());
    }
}

#[test]
fn blank_characters_are_white_space() {
    for code in 0u32..0x3100 {
        if let Some(c) = char::from_u32(code) {
            assert_eq!(is_blank(c), c.is_whitespace());
        }
    }
}

#[test]
fn a_feature_is_offered_only_while_its_marker_is_absent() {
    assert!(is_offered(Feature::Snapdpurge, false));
    assert!(!is_offered(Feature::Snapdpurge, true));
    assert!(is_offered(Feature::Pacstall, false));
    assert!(!is_offered(Feature::Pacstall, true));
    assert!(!is_offered(Feature::Xanmod, false));
    assert!(!is_offered(Feature::Xanmod, true));
}

#[test]
fn an_answer_other_than_yes_asks_for_nothing() {
    assert_eq!(
        answer(Feature::Pacstall, "y\n"),
        Some(ToggleRequest::single(Feature::Pacstall, Direction::Enable))
    );
    assert_eq!(
        answer(Feature::Snapdpurge, "\n"),
        Some(ToggleRequest::single(Feature::Snapdpurge, Direction::Enable))
    );
    assert_eq!(answer(Feature::Pacstall, "n\n"), None);
    assert_eq!(answer(Feature::Pacstall, "maybe"), None);
}
