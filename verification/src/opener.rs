//! The fallback chain for opening the recordings folder: the desktop's
//! default opener first, then the known file managers in priority order,
//! then a terminal emulator pointed at the directory. The caller tries
//! each attempt in turn and moves on only when a launch fails.

use vstd::prelude::*;

verus! {

/// A command line to attempt: the program and its arguments.
pub struct OpenerCommand {
    pub program: String,
    pub args: Vec<String>,
}

/// The command for attempt number `step`, or nothing once the chain is
/// exhausted.
pub open spec fn opener_model(step: int, dir: Seq<char>) -> Option<(Seq<char>, Seq<Seq<char>>)> {
    if step == 0 {
        Option::Some(("xdg-open"@, seq![dir]))
    } else if step == 1 {
        Option::Some(("nautilus"@, seq![dir]))
    } else if step == 2 {
        Option::Some(("thunar"@, seq![dir]))
    } else if step == 3 {
        Option::Some(("dolphin"@, seq![dir]))
    } else if step == 4 {
        Option::Some(("kitty"@, seq!["--directory"@, dir]))
    } else if step == 5 {
        Option::Some(("gnome-terminal"@, seq!["--working-directory"@, dir]))
    } else {
        Option::None
    }
}

/// The words of an attempt's argument list.
pub open spec fn args_model(args: Seq<String>) -> Seq<Seq<char>> {
    args.map_values(|s: String| s@)
}

/// The command to try at attempt number `step` of the chain, or nothing
/// once every attempt is exhausted.
pub fn opener_attempt(step: usize, directory: &String) -> (r: Option<OpenerCommand>)
    ensures
        r is Some <==> opener_model(step as int, directory@) is Some,
        r matches Some(c) ==> (opener_model(step as int, directory@) matches Some(m) && c.program@
            == m.0 && args_model(c.args@) == m.1),
{
    if step == 0 {
        let mut args: Vec<String> = Vec::new();
        args.push(directory.clone());
        let r = Some(OpenerCommand { program: String::from_str("xdg-open"), args });
        proof {
            assert(args_model(r->Some_0.args@) =~= seq![directory@]);
        }
        r
    } else if step == 1 {
        let mut args: Vec<String> = Vec::new();
        args.push(directory.clone());
        let r = Some(OpenerCommand { program: String::from_str("nautilus"), args });
        proof {
            assert(args_model(r->Some_0.args@) =~= seq![directory@]);
        }
        r
    } else if step == 2 {
        let mut args: Vec<String> = Vec::new();
        args.push(directory.clone());
        let r = Some(OpenerCommand { program: String::from_str("thunar"), args });
        proof {
            assert(args_model(r->Some_0.args@) =~= seq![directory@]);
        }
        r
    } else if step == 3 {
        let mut args: Vec<String> = Vec::new();
        args.push(directory.clone());
        let r = Some(OpenerCommand { program: String::from_str("dolphin"), args });
        proof {
            assert(args_model(r->Some_0.args@) =~= seq![directory@]);
        }
        r
    } else if step == 4 {
        let mut args: Vec<String> = Vec::new();
        args.push(String::from_str("--directory"));
        args.push(directory.clone());
        let r = Some(OpenerCommand { program: String::from_str("kitty"), args });
        proof {
            assert(args_model(r->Some_0.args@) =~= seq!["--directory"@, directory@]);
        }
        r
    } else if step == 5 {
        let mut args: Vec<String> = Vec::new();
        args.push(String::from_str("--working-directory"));
        args.push(directory.clone());
        let r = Some(OpenerCommand { program: String::from_str("gnome-terminal"), args });
        proof {
            assert(args_model(r->Some_0.args@) =~= seq!["--working-directory"@, directory@]);
        }
        r
    } else {
        None
    }
}

} // verus!
