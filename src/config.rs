use vstd::prelude::*;

verus! {

/// The initialization options that the resolver reads, as plain values.
/// A key that is absent or of the wrong shape is `None`; `server_args`
/// holds the string items of the `serverArgs` array.
pub struct InitOptions {
    pub server_args: Option<Vec<String>>,
    pub server_path: Option<String>,
    pub solution: Option<String>,
    pub log_level: Option<String>,
}

/// What the resolver makes of the options.
pub struct LaunchSpec {
    /// A non-empty `serverPath`, which bypasses provisioning.
    pub server_path_override: Option<String>,
    pub server_args: Vec<String>,
}

pub open spec fn strs(v: Seq<String>) -> Seq<Seq<char>> {
    v.map_values(|s: String| s@)
}

pub open spec fn log_flag() -> Seq<char> {
    "--loglevel"@
}

pub open spec fn default_log_level() -> Seq<char> {
    "warning"@
}

pub open spec fn solution_prefix() -> Seq<char> {
    "solution "@
}

/// The `serverArgs` items, when the array is there and not empty.
pub open spec fn given_args(o: InitOptions) -> Option<Seq<Seq<char>>> {
    match o.server_args {
        Some(a) => if a@.len() > 0 { Some(strs(a@)) } else { None },
        None => None,
    }
}

/// The argument vector built when no `serverArgs` replace it.
pub open spec fn default_args(o: InitOptions) -> Seq<Seq<char>> {
    let sol = match o.solution {
        Some(s) => seq![solution_prefix() + s@],
        None => Seq::empty(),
    };
    let level = match o.log_level {
        Some(l) => l@,
        None => default_log_level(),
    };
    sol + seq![log_flag(), level]
}

pub open spec fn resolved_args(o: InitOptions) -> Seq<Seq<char>> {
    match given_args(o) {
        Some(a) => a,
        None => default_args(o),
    }
}

pub open spec fn resolved_override(o: InitOptions) -> Option<Seq<char>> {
    match o.server_path {
        Some(p) => if p@.len() > 0 { Some(p@) } else { None },
        None => None,
    }
}

/// A non-empty `serverArgs` array is the argument vector exactly: the
/// default arguments are replaced, never merged with it.
pub proof fn lemma_server_args_replace_defaults(o: InitOptions)
    requires
        o.server_args matches Some(a) && a@.len() > 0,
    ensures
        resolved_args(o) == strs(o.server_args.unwrap()@),
{
}

fn copy_strings(v: &Vec<String>) -> (r: Vec<String>)
    ensures
        strs(r@) == strs(v@),
{
    let mut r: Vec<String> = Vec::new();
    let mut i: usize = 0;
    proof {
        assert(strs(r@) =~= strs(v@).take(0));
    }
    while i < v.len()
        invariant
            i <= v@.len(),
            strs(r@) == strs(v@).take(i as int),
        decreases v@.len() - i,
    {
        let c: String = v[i].clone();
        let ghost prev = r@;
        r.push(c);
        proof {
            assert(r@ == prev.push(c));
            assert(strs(r@) =~= strs(prev).push(c@));
            assert(strs(v@).take(i + 1) =~= strs(v@).take(i as int).push(strs(v@)[i as int]));
        }
        i += 1;
    }
    proof {
        assert(strs(v@).take(v@.len() as int) =~= strs(v@));
    }
    r
}

/// Merges the options into a launch spec: a non-empty `serverArgs` replaces
/// the default arguments entirely; otherwise the arguments are the solution
/// flag, when a solution is named, then `--loglevel` and the level.
pub fn resolve_config(o: &InitOptions) -> (r: LaunchSpec)
    ensures
        strs(r.server_args@) == resolved_args(*o),
        r.server_path_override.is_some() == resolved_override(*o).is_some(),
        r.server_path_override.is_some() ==> r.server_path_override.unwrap()@
            == resolved_override(*o).unwrap(),
{
    let server_path_override = match &o.server_path {
        Some(p) => if !p.as_str().is_empty() { Some(p.clone()) } else { None },
        None => None,
    };
    let given = match &o.server_args {
        Some(a) => if a.len() > 0 { Some(copy_strings(a)) } else { None },
        None => None,
    };
    let server_args = match given {
        Some(a) => a,
        None => {
            let mut args: Vec<String> = Vec::new();
            match &o.solution {
                Some(s) => {
                    let mut flag = "solution ".to_owned();
                    flag.append(s.as_str());
                    args.push(flag);
                },
                None => {},
            }
            args.push("--loglevel".to_owned());
            let level = match &o.log_level {
                Some(l) => l.clone(),
                None => "warning".to_owned(),
            };
            args.push(level);
            proof {
                assert(strs(args@) =~= default_args(*o));
            }
            args
        },
    };
    LaunchSpec { server_path_override, server_args }
}

} // verus!
