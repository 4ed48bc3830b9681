//! The shape of a parsed command line, and the requests it stands for.

use vstd::prelude::*;
use vstd::string::StrSliceExecFns;
use crate::engine::ToggleRequest;
use crate::feature::Direction;
use crate::feature::Feature;
pub use crate::variants::XanmodVariants;

verus! {

/// A parsed command line.
#[derive(Clone, Copy, Debug, PartialEq, Eq, Structural)]
pub struct Cli {
    pub command: Commands,
}

/// The subcommands.
#[derive(Clone, Copy, Debug, PartialEq, Eq, Structural)]
pub enum Commands {
    /// Enable a config option, manually or interactively
    Enable(EnableCommand),
    /// Disable a config option
    Disable(DisableCommand),
    /// Switch to alternate kernels
    SwitchKernel(SwitchKernel),
}

/// The flags of `enable`. `interactive` excludes the feature flags.
#[derive(Clone, Copy, Debug, PartialEq, Eq, Structural)]
pub struct EnableCommand {
    /// Run interactively
    pub interactive: bool,
    /// Enable Pacstall, an additional AUR-like package manager for Ubuntu
    pub pacstall: bool,
    /// Remove Snapcraft (snapd) and replace it with Flatpak
    pub snapdpurge: bool,
}

/// The flags of `disable`.
#[derive(Clone, Copy, Debug, PartialEq, Eq, Structural)]
pub struct DisableCommand {
    /// Disable Pacstall, an additional AUR-like package manager for Ubuntu
    pub pacstall: bool,
    /// Install Snapcraft (snapd)
    pub snapdpurge: bool,
}

/// The operations of `switch-kernel`.
#[derive(Clone, Copy, Debug, PartialEq, Eq, Structural)]
pub enum SwitchKernel {
    /// Enable custom kernels
    Enable(EnableKernel),
    /// Disable custom kernels
    Disable(DisableKernel),
}

/// The kernels that `switch-kernel enable` takes.
#[derive(Clone, Copy, Debug, PartialEq, Eq, Structural)]
pub enum EnableKernel {
    /// Enable the XanMod kernel. Defaults to the stable variant
    Xanmod(XanmodVariants),
    /// Enable the Liquorix kernel
    Liquorix,
    /// Enable the Libre kernel
    Libre,
}

/// The kernels that `switch-kernel disable` takes.
#[derive(Clone, Copy, Debug, PartialEq, Eq, Structural)]
pub enum DisableKernel {
    /// Disable the XanMod kernel. Defaults to the stable variant
    Xanmod(XanmodVariants),
    /// Disable the Liquorix kernel
    Liquorix,
    /// Disable the Libre kernel
    Libre,
}

/// The sequence that holds the request for `feature` if `flag` is set, and
/// nothing otherwise.
pub open spec fn flagged(flag: bool, feature: Feature, direction: Direction) -> Seq<
    ToggleRequest,
> {
    if flag {
        seq![ToggleRequest::spec_single(feature, direction)]
    } else {
        Seq::empty()
    }
}

impl Cli {
    /// The requests that the command line's flags stand for, in the order in
    /// which they are served: snap removal before Pacstall for `enable` and
    /// `disable`, and the one kernel request for `switch-kernel`. The
    /// `interactive` flag adds none: its requests come from the answers.
    pub open spec fn spec_requests(self) -> Seq<ToggleRequest> {
        match self.command {
            Commands::Enable(flags) => flagged(
                flags.snapdpurge,
                Feature::Snapdpurge,
                Direction::Enable,
            ) + flagged(flags.pacstall, Feature::Pacstall, Direction::Enable),
            Commands::Disable(flags) => flagged(
                flags.snapdpurge,
                Feature::Snapdpurge,
                Direction::Disable,
            ) + flagged(flags.pacstall, Feature::Pacstall, Direction::Disable),
            Commands::SwitchKernel(SwitchKernel::Enable(kernel)) => seq![
                match kernel {
                    EnableKernel::Xanmod(variants) => ToggleRequest::spec_xanmod(
                        variants,
                        Direction::Enable,
                    ),
                    EnableKernel::Liquorix => ToggleRequest::spec_single(
                        Feature::Liquorix,
                        Direction::Enable,
                    ),
                    EnableKernel::Libre => ToggleRequest::spec_single(
                        Feature::Libre,
                        Direction::Enable,
                    ),
                },
            ],
            Commands::SwitchKernel(SwitchKernel::Disable(kernel)) => seq![
                match kernel {
                    DisableKernel::Xanmod(variants) => ToggleRequest::spec_xanmod(
                        variants,
                        Direction::Disable,
                    ),
                    DisableKernel::Liquorix => ToggleRequest::spec_single(
                        Feature::Liquorix,
                        Direction::Disable,
                    ),
                    DisableKernel::Libre => ToggleRequest::spec_single(
                        Feature::Libre,
                        Direction::Disable,
                    ),
                },
            ],
        }
    }

    /// The requests that the command line's flags stand for, in the order in
    /// which they are served.
    pub fn requests(&self) -> (requests: Vec<ToggleRequest>)
        ensures
            requests@ == self.spec_requests(),
    {
        let mut requests: Vec<ToggleRequest> = Vec::new();
        match self.command {
            Commands::Enable(flags) => {
                if flags.snapdpurge {
                    requests.push(ToggleRequest::single(Feature::Snapdpurge, Direction::Enable));
                }
                if flags.pacstall {
                    requests.push(ToggleRequest::single(Feature::Pacstall, Direction::Enable));
                }
            },
            Commands::Disable(flags) => {
                if flags.snapdpurge {
                    requests.push(ToggleRequest::single(Feature::Snapdpurge, Direction::Disable));
                }
                if flags.pacstall {
                    requests.push(ToggleRequest::single(Feature::Pacstall, Direction::Disable));
                }
            },
            Commands::SwitchKernel(SwitchKernel::Enable(kernel)) => {
                let request = match kernel {
                    EnableKernel::Xanmod(variants) => ToggleRequest::xanmod(
                        variants,
                        Direction::Enable,
                    ),
                    EnableKernel::Liquorix => ToggleRequest::single(
                        Feature::Liquorix,
                        Direction::Enable,
                    ),
                    EnableKernel::Libre => ToggleRequest::single(Feature::Libre, Direction::Enable),
                };
                requests.push(request);
            },
            Commands::SwitchKernel(SwitchKernel::Disable(kernel)) => {
                let request = match kernel {
                    DisableKernel::Xanmod(variants) => ToggleRequest::xanmod(
                        variants,
                        Direction::Disable,
                    ),
                    DisableKernel::Liquorix => ToggleRequest::single(
                        Feature::Liquorix,
                        Direction::Disable,
                    ),
                    DisableKernel::Libre => ToggleRequest::single(
                        Feature::Libre,
                        Direction::Disable,
                    ),
                };
                requests.push(request);
            },
        }
        assert(requests@ =~= self.spec_requests());
        requests
    }

    /// Whether the features are to be offered one by one.
    pub fn is_interactive(&self) -> (interactive: bool)
        ensures
            interactive == (self.command matches Commands::Enable(flags) && flags.interactive),
    {
        match self.command {
            Commands::Enable(flags) => flags.interactive,
            _ => false,
        }
    }
}

/// The features offered in interactive mode, in the order in which they are
/// offered: snap removal, Pacstall, and the mainline kernel where the build
/// has it.
pub open spec fn spec_interactive_features(with_mainline: bool) -> Seq<Feature> {
    if with_mainline {
        seq![Feature::Snapdpurge, Feature::Pacstall, Feature::Mainline]
    } else {
        seq![Feature::Snapdpurge, Feature::Pacstall]
    }
}

/// The features offered in interactive mode, in the order in which they are
/// offered. A feature whose marker is present is passed over without a
/// question.
pub fn interactive_features(with_mainline: bool) -> (features: Vec<Feature>)
    ensures
        features@ == spec_interactive_features(with_mainline),
{
    let mut features: Vec<Feature> = Vec::new();
    features.push(Feature::Snapdpurge);
    features.push(Feature::Pacstall);
    if with_mainline {
        features.push(Feature::Mainline);
    }
    assert(features@ =~= spec_interactive_features(with_mainline));
    features
}

/// Whether a feature is offered in interactive mode: it has a single marker,
/// and that marker is absent.
pub fn is_offered(feature: Feature, present: bool) -> (offered: bool)
    ensures
        offered == (feature.spec_single_key() is Some && !present),
{
    match feature.single_key() {
        Some(_) => !present,
        None => false,
    }
}

/// The request that a reply to an offer stands for: to enable the feature
/// where the reply means yes, and nothing otherwise.
pub fn answer(feature: Feature, reply: &str) -> (request: Option<ToggleRequest>)
    ensures
        request == if spec_is_affirmative(reply@) {
            Some(ToggleRequest::spec_single(feature, Direction::Enable))
        } else {
            None
        },
{
    if is_affirmative(reply) {
        Some(ToggleRequest::single(feature, Direction::Enable))
    } else {
        None
    }
}

/// Whether a character is white space: the characters that trimming a
/// reply removes.
pub open spec fn spec_is_blank(c: char) -> bool {
    ||| '\u{9}' <= c <= '\u{d}'
    ||| c == ' '
    ||| c == '\u{85}'
    ||| c == '\u{a0}'
    ||| c == '\u{1680}'
    ||| '\u{2000}' <= c <= '\u{200a}'
    ||| c == '\u{2028}'
    ||| c == '\u{2029}'
    ||| c == '\u{202f}'
    ||| c == '\u{205f}'
    ||| c == '\u{3000}'
}

/// Whether a character is white space.
pub fn is_blank(c: char) -> (blank: bool)
    ensures
        blank == spec_is_blank(c),
{
    ('\u{9}' <= c && c <= '\u{d}') || c == ' ' || c == '\u{85}' || c == '\u{a0}' || c
        == '\u{1680}' || ('\u{2000}' <= c && c <= '\u{200a}') || c == '\u{2028}' || c
        == '\u{2029}' || c == '\u{202f}' || c == '\u{205f}' || c == '\u{3000}'
}

/// Whether a character is the letter of assent, in either case.
pub open spec fn is_yes_letter(c: char) -> bool {
    c == 'y' || c == 'Y'
}

/// Whether every character but the one at `except` is white space.
pub open spec fn blank_but(reply: Seq<char>, except: int) -> bool {
    forall|j: int| 0 <= j < reply.len() && j != except ==> spec_is_blank(#[trigger] reply[j])
}

/// Whether a reply means yes: it is empty or `y` in either case, white
/// space around it aside.
pub open spec fn spec_is_affirmative(reply: Seq<char>) -> bool {
    ||| blank_but(reply, -1)
    ||| exists|i: int| 0 <= i < reply.len() && is_yes_letter(#[trigger] reply[i]) && blank_but(reply, i)
}

/// Whether a reply to a yes-or-no question means yes: it is empty or `y` in
/// either case, white space around it aside. Anything else means no.
pub fn is_affirmative(reply: &str) -> (yes: bool)
    ensures
        yes == spec_is_affirmative(reply@),
{
    let len = reply.unicode_len();
    let mut found: usize = 0;
    let mut letter: bool = false;
    let ghost mut first: int = -1;
    let ghost mut second: int = -1;
    let mut i: usize = 0;
    while i < len
        invariant
            len == reply@.len(),
            i <= len,
            found <= 2,
            found == 0 ==> forall|j: int| 0 <= j < i ==> spec_is_blank(#[trigger] reply@[j]),
            found >= 1 ==> 0 <= first < i && !spec_is_blank(reply@[first]) && letter
                == is_yes_letter(reply@[first]),
            found == 1 ==> forall|j: int|
                0 <= j < i && j != first ==> spec_is_blank(#[trigger] reply@[j]),
            found == 2 ==> first < second < i && !spec_is_blank(reply@[second]),
        decreases len - i,
    {
        let c = reply.get_char(i);
        if !is_blank(c) {
            if found == 0 {
                found = 1;
                letter = c == 'y' || c == 'Y';
                proof {
                    first = i as int;
                }
            } else {
                found = 2;
                proof {
                    second = i as int;
                }
            }
        }
        i = i + 1;
    }
    let yes = found == 0 || (found == 1 && letter);
    proof {
        let text = reply@;
        if found == 0 {
            assert(blank_but(text, -1));
        } else if found == 1 {
            assert(!blank_but(text, -1));
            if letter {
                assert(blank_but(text, first));
            } else {
                assert forall|k: int| 0 <= k < text.len() && is_yes_letter(#[trigger] text[k])
                    implies !blank_but(text, k) by {
                    assert(k != first);
                }
            }
        } else {
            assert(!blank_but(text, -1));
            assert forall|k: int| 0 <= k < text.len() implies !blank_but(text, k) by {
                if k == first {
                    assert(!spec_is_blank(text[second]));
                } else {
                    assert(!spec_is_blank(text[first]));
                }
            }
        }
    }
    yes
}

} // verus!
