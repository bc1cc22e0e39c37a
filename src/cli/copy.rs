//! Copying built packages into the local repository.
use vstd::prelude::*;

use crate::action::{effects, Action, Effect};
use crate::cli::clean::{index_action, index_effect};
use crate::paths::{join_path, joined, texts};

verus! {

/// Each package is copied to the same relative path under `repo`; the
/// index is rebuilt afterwards if asked.
pub open spec fn copy_effects(index: bool, repo: Seq<char>, packages: Seq<Seq<char>>) -> Seq<
    Effect,
> {
    packages.map_values(|p: Seq<char>| Effect::CopyFile { from: p, to: joined(repo, p) }) + if index {
        seq![index_effect(repo)]
    } else {
        Seq::empty()
    }
}

/// Plans copying `packages` (the package files found in the working
/// directory, as paths relative to it) into `repo`.
pub fn handle(index: bool, repo: &str, packages: &Vec<String>) -> (r: Vec<Action>)
    ensures
        effects(r@) == copy_effects(index, repo@, texts(packages@)),
{
    let ghost f = |p: Seq<char>| Effect::CopyFile { from: p, to: joined(repo@, p) };
    let mut out: Vec<Action> = Vec::new();
    let mut i: usize = 0;
    while i < packages.len()
        invariant
            i <= packages.len(),
            f == (|p: Seq<char>| Effect::CopyFile { from: p, to: joined(repo@, p) }),
            effects(out@) == texts(packages@).take(i as int).map_values(f),
        decreases packages.len() - i,
    {
        let from = packages[i].clone();
        let to = join_path(repo, packages[i].as_str());
        let ghost before = out@;
        out.push(Action::CopyFile { from, to });
        proof {
            assert(effects(out@) =~= effects(before).push(f(packages@[i as int]@)));
            assert(texts(packages@).take(i as int + 1).map_values(f) =~= texts(packages@).take(
                i as int,
            ).map_values(f).push(f(packages@[i as int]@)));
        }
        i = i + 1;
    }
    let ghost body = out@;
    proof {
        assert(texts(packages@).take(i as int) =~= texts(packages@));
    }
    if index {
        out.push(index_action(repo));
        proof {
            assert(effects(out@) =~= effects(body) + seq![index_effect(repo@)]);
        }
    } else {
        proof {
            assert(effects(out@) =~= effects(body) + Seq::<Effect>::empty());
        }
    }
    out
}

} // verus!
