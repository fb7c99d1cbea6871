//! Core of a small package manager built around a TOML project
//! configuration: it resolves a package's direct dependencies plus one
//! extra hop of transitivity, plans the tarball downloads for the
//! resolved set, records an installed package back into the project
//! configuration, and looks up script commands from that same
//! configuration.
//!
//! All network and filesystem traffic stays outside this library: the
//! functions here take the fetched bytes or file contents as plain
//! values and return plain values, so every decision they make is
//! verified.
use vstd::prelude::*;

use crate::command::Command;
use crate::command::strs_view;
use crate::command::subst_spec;
use crate::commands_registry::CommandsRegistry;
use crate::config::all_strings;
use crate::config::entries_map;
use crate::config::entries_view;
use crate::config::scripts_entries;
use crate::config::toml_ok;
use crate::config::toml_scripts;

pub mod command;
pub mod commands_registry;
pub mod config;
pub mod constraint;
pub mod dep_map;
pub mod download;
pub mod errors;
pub mod registry_data;
pub mod resolver;

verus! {

pub const DEFAULT_BONNIE_CFG_PATH: &'static str = "./bonnie.toml";

/// Picks the configuration path: the environment override when one was
/// given, else the fixed default. The caller reads the environment
/// variable and hands the outcome in as a plain `Option`.
pub fn get_cfg_path(env_var: Option<String>) -> (r: String)
    ensures
        r@ == match env_var {
            Some(p) => p@,
            None => DEFAULT_BONNIE_CFG_PATH@,
        },
{
    match env_var {
        Some(p) => p,
        None => DEFAULT_BONNIE_CFG_PATH.to_owned(),
    }
}

/// The name-to-template map of the configuration's `scripts` table.
pub open spec fn scripts_map(cfg: Seq<char>) -> Map<Seq<char>, Seq<char>> {
    entries_map(toml_scripts(cfg))
}

/// Whether looking a command up and substituting the arguments can
/// succeed: the configuration parses with string-valued scripts, a
/// command name was supplied, the name is a script, and its template
/// asks for no argument beyond those supplied.
pub open spec fn command_available(cfg: Seq<char>, prog_args: Seq<Seq<char>>) -> bool {
    &&& toml_ok(cfg)
    &&& all_strings(toml_scripts(cfg))
    &&& prog_args.len() >= 2
    &&& scripts_map(cfg).contains_key(prog_args[1])
    &&& subst_spec(scripts_map(cfg)[prog_args[1]], prog_args.skip(2)) is Some
}

/// The message reported for the first reason, in checking order,
/// that a command cannot be produced.
pub open spec fn command_error(cfg: Seq<char>, prog_args: Seq<Seq<char>>) -> Seq<char> {
    if !toml_ok(cfg) || !all_strings(toml_scripts(cfg)) {
        "Error parsing bonnie.toml: the scripts must be a table of strings."@
    } else if prog_args.len() < 2 {
        "You must provide a command to run."@
    } else if !scripts_map(cfg).contains_key(prog_args[1]) {
        "Command '"@ + prog_args[1] + "' not found."@
    } else {
        "Command expects an argument that was not provided."@
    }
}

/// The whole command path short of running anything: reads the
/// configuration text, looks up the command named by the second
/// program argument, and substitutes the remaining arguments into
/// its template. Returns the finished command string, or the error
/// for the first thing that went wrong.
pub fn get_command_from_cfg_and_args(cfg_string: String, prog_args: Vec<String>) -> (r: Result<
    String,
    String,
>)
    ensures
        r is Ok <==> command_available(cfg_string@, strs_view(prog_args@)),
        r matches Ok(s) ==> (subst_spec(scripts_map(cfg_string@)[prog_args@[1]@], strs_view(prog_args@).skip(2)) == Some(s@)),
        r matches Err(e) ==> e@ == command_error(cfg_string@, strs_view(prog_args@)),
{
    let entries = match scripts_entries(cfg_string.as_str()) {
        Some(v) => v,
        None => {
            return Err("Error parsing bonnie.toml: the scripts must be a table of strings.".to_owned());
        },
    };
    let mut registry = CommandsRegistry::new();
    let n = entries.len();
    let mut i: usize = 0;
    while i < n
        invariant
            n == entries@.len(),
            0 <= i <= n,
            entries_view(entries@) == toml_scripts(cfg_string@),
            registry.wf(),
            registry@ == entries_map(entries_view(entries@).take(i as int)),
            forall|j: int| 0 <= j < i ==> entries_view(entries@)[j].1 is Some,
        decreases n - i,
    {
        match &entries[i].1 {
            Some(v) => {
                registry.add(entries[i].0.as_str(), Command::new(v.clone()));
                proof {
                    let ev = entries_view(entries@);
                    assert(ev.take(i + 1).drop_last() =~= ev.take(i as int));
                    assert(ev.take(i + 1).last() == ev[i as int]);
                }
            },
            None => {
                proof {
                    assert(entries_view(entries@)[i as int].1 is None);
                }
                return Err("Error parsing bonnie.toml: the scripts must be a table of strings.".to_owned());
            },
        }
        i += 1;
    }
    proof {
        assert(entries_view(entries@).take(n as int) =~= entries_view(entries@));
        assert(all_strings(toml_scripts(cfg_string@)));
    }
    if prog_args.len() < 2 {
        return Err("You must provide a command to run.".to_owned());
    }
    let cmd = &prog_args[1];
    let mut args: Vec<String> = Vec::new();
    let mut j: usize = 2;
    while j < prog_args.len()
        invariant
            2 <= j <= prog_args@.len(),
            args@.len() == j - 2,
            forall|m: int| 0 <= m < args@.len() ==> args@[m] == prog_args@[m + 2],
        decreases prog_args@.len() - j,
    {
        args.push(prog_args[j].clone());
        j += 1;
    }
    proof {
        assert(strs_view(args@) =~= strs_view(prog_args@).skip(2));
        assert(prog_args@[1]@ == strs_view(prog_args@)[1]);
    }
    let command = match registry.get(cmd.as_str()) {
        Ok(c) => c,
        Err(e) => {
            return Err(e);
        },
    };
    command.insert_args(&args)
}

} // verus!
