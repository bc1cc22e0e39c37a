//! Choosing which package files to remove from the local repository.
//!
//! A file is chosen when its path matches a removal pattern and no keep
//! pattern: keep always wins.
use vstd::prelude::*;

use crate::action::{effects, is_mutation, Action, Effect};
use crate::globs::{
    builder_add, builder_build, glob_matches, glob_syntax_ok, matches_any, new_builder,
    parse_glob, set_builds, set_is_match, PatternSet,
};
use crate::paths::texts;

verus! {

/// The pattern for the packages of `name` under `repo`: `repo/name*.eopkg`.
pub open spec fn package_glob(repo: Seq<char>, name: Seq<char>) -> Seq<char> {
    repo + "/"@ + name + "*.eopkg"@
}

/// The pattern for every package under `repo`: `repo/*.eopkg`.
pub open spec fn any_package_glob(repo: Seq<char>) -> Seq<char> {
    repo + "/*.eopkg"@
}

/// One package pattern per name, in order.
pub open spec fn name_globs(repo: Seq<char>, names: Seq<Seq<char>>) -> Seq<Seq<char>> {
    names.map_values(|n: Seq<char>| package_glob(repo, n))
}

/// The removal patterns: every package when no name is given.
pub open spec fn remove_globs(repo: Seq<char>, remove: Option<Seq<Seq<char>>>) -> Seq<Seq<char>> {
    match remove {
        Some(names) => name_globs(repo, names),
        None => seq![any_package_glob(repo)],
    }
}

/// The keep patterns: none when no name is given.
pub open spec fn keep_globs(repo: Seq<char>, keep: Option<Seq<Seq<char>>>) -> Seq<Seq<char>> {
    match keep {
        Some(names) => name_globs(repo, names),
        None => Seq::empty(),
    }
}

/// The views of an optional list of names.
pub open spec fn opt_texts(v: Option<Vec<String>>) -> Option<Seq<Seq<char>>> {
    match v {
        Some(names) => Some(texts(names@)),
        None => None,
    }
}

/// The patterns of an optional compiled set; an absent set holds none.
pub open spec fn opt_set_patterns(s: Option<PatternSet>) -> Seq<Seq<char>> {
    match s {
        Some(set) => set.patterns(),
        None => Seq::empty(),
    }
}

/// Whether `path` is to be removed.
pub open spec fn is_chosen(remove: Seq<Seq<char>>, keep: Seq<Seq<char>>, path: Seq<char>) -> bool {
    matches_any(remove, path) && !matches_any(keep, path)
}

/// The entries to remove, in the order of `entries`.
pub open spec fn chosen(
    entries: Seq<Seq<char>>,
    remove: Seq<Seq<char>>,
    keep: Seq<Seq<char>>,
) -> Seq<Seq<char>> {
    entries.filter(|p: Seq<char>| is_chosen(remove, keep, p))
}

/// Whether some pattern of the list is malformed.
pub open spec fn any_malformed(patterns: Seq<Seq<char>>) -> bool {
    exists|i: int| 0 <= i < patterns.len() && !glob_syntax_ok(#[trigger] patterns[i])
}

/// Whether the patterns are all well-formed and compile together.
pub open spec fn compiles(patterns: Seq<Seq<char>>) -> bool {
    !any_malformed(patterns) && set_builds(patterns)
}

/// Whether a clean can be planned: the removal patterns compile, and so do
/// the keep patterns when keep names are given.
pub open spec fn clean_compiles(
    repo: Seq<char>,
    remove: Option<Seq<Seq<char>>>,
    keep: Option<Seq<Seq<char>>>,
) -> bool {
    compiles(remove_globs(repo, remove)) && (keep is Some ==> compiles(keep_globs(repo, keep)))
}

/// The effects of a clean of `repo` whose entries are `entries`, or none
/// when its patterns do not compile.
pub open spec fn clean_plan(
    dry_run: bool,
    index: bool,
    repo: Seq<char>,
    remove: Option<Seq<Seq<char>>>,
    keep: Option<Seq<Seq<char>>>,
    entries: Seq<Seq<char>>,
) -> Option<Seq<Effect>> {
    if clean_compiles(repo, remove, keep) {
        Some(
            clean_effects(
                dry_run,
                index,
                repo,
                chosen(entries, remove_globs(repo, remove), keep_globs(repo, keep)),
            ),
        )
    } else {
        None
    }
}

/// Builds the pattern `repo/name*.eopkg`.
pub fn package_pattern(repo: &str, name: &str) -> (r: String)
    ensures
        r@ == package_glob(repo@, name@),
{
    let mut out = String::from_str(repo);
    out.append("/");
    out.append(name);
    out.append("*.eopkg");
    out
}

/// Builds the pattern `repo/*.eopkg`.
pub fn any_package_pattern(repo: &str) -> (r: String)
    ensures
        r@ == any_package_glob(repo@),
{
    let mut out = String::from_str(repo);
    out.append("/*.eopkg");
    out
}

/// Builds one package pattern per name.
pub fn name_patterns(repo: &str, names: &Vec<String>) -> (r: Vec<String>)
    ensures
        texts(r@) == name_globs(repo@, texts(names@)),
{
    let mut out: Vec<String> = Vec::new();
    let mut i: usize = 0;
    while i < names.len()
        invariant
            i <= names.len(),
            texts(out@) == name_globs(repo@, texts(names@)).take(i as int),
        decreases names.len() - i,
    {
        let p = package_pattern(repo, names[i].as_str());
        let ghost before = out@;
        out.push(p);
        proof {
            assert(texts(out@) =~= texts(before).push(p@));
            assert(name_globs(repo@, texts(names@)).take(i as int + 1) =~= name_globs(
                repo@,
                texts(names@),
            ).take(i as int).push(p@));
        }
        i = i + 1;
    }
    proof {
        assert(name_globs(repo@, texts(names@)).take(i as int) =~= name_globs(
            repo@,
            texts(names@),
        ));
    }
    out
}

/// Compiles the patterns into one set. Fails if any pattern is malformed;
/// on success the set holds exactly the given patterns.
pub fn compile_patterns(patterns: &Vec<String>) -> (r: Result<PatternSet, globset::Error>)
    ensures
        r is Ok <==> compiles(texts(patterns@)),
        r matches Ok(s) ==> s.patterns() == texts(patterns@),
{
    let mut builder = new_builder();
    let mut i: usize = 0;
    while i < patterns.len()
        invariant
            i <= patterns.len(),
            builder.patterns() == texts(patterns@).take(i as int),
            forall|j: int| 0 <= j < i ==> glob_syntax_ok(#[trigger] texts(patterns@)[j]),
        decreases patterns.len() - i,
    {
        let g = match parse_glob(patterns[i].as_str()) {
            Ok(g) => g,
            Err(e) => {
                proof {
                    assert(!glob_syntax_ok(texts(patterns@)[i as int]));
                }
                return Err(e);
            },
        };
        builder_add(&mut builder, g);
        proof {
            assert(texts(patterns@).take(i as int + 1) =~= texts(patterns@).take(i as int).push(
                patterns@[i as int]@,
            ));
        }
        i = i + 1;
    }
    proof {
        assert(texts(patterns@).take(i as int) =~= texts(patterns@));
    }
    builder_build(&builder)
}

/// Compiles the removal patterns for `repo`.
pub fn removal_set(repo: &str, remove: &Option<Vec<String>>) -> (r: Result<
    PatternSet,
    globset::Error,
>)
    ensures
        r is Ok <==> compiles(remove_globs(repo@, opt_texts(*remove))),
        r matches Ok(s) ==> s.patterns() == remove_globs(repo@, opt_texts(*remove)),
{
    let patterns = match remove {
        Some(names) => name_patterns(repo, names),
        None => {
            let all = any_package_pattern(repo);
            let mut v: Vec<String> = Vec::new();
            v.push(all);
            proof {
                assert(texts(v@) =~= seq![any_package_glob(repo@)]);
            }
            v
        },
    };
    compile_patterns(&patterns)
}

/// Compiles the keep patterns for `repo`; no set when no name is given.
pub fn keeper_set(repo: &str, keep: &Option<Vec<String>>) -> (r: Result<
    Option<PatternSet>,
    globset::Error,
>)
    ensures
        r is Ok <==> (keep is Some ==> compiles(keep_globs(repo@, opt_texts(*keep)))),
        r matches Ok(k) ==> opt_set_patterns(k) == keep_globs(repo@, opt_texts(*keep)),
        r matches Ok(k) ==> (k is None <==> keep is None),
{
    match keep {
        Some(names) => {
            let patterns = name_patterns(repo, names);
            match compile_patterns(&patterns) {
                Ok(set) => Ok(Some(set)),
                Err(e) => Err(e),
            }
        },
        None => Ok(None),
    }
}

/// The entries that match `remove` and do not match `keep`, in order.
pub fn select(entries: &Vec<String>, remove: &PatternSet, keep: &Option<PatternSet>) -> (r: Vec<
    String,
>)
    ensures
        texts(r@) == chosen(texts(entries@), remove.patterns(), opt_set_patterns(*keep)),
{
    let ghost rp = remove.patterns();
    let ghost kp = opt_set_patterns(*keep);
    let ghost pred = |p: Seq<char>| is_chosen(rp, kp, p);
    let mut out: Vec<String> = Vec::new();
    let mut i: usize = 0;
    while i < entries.len()
        invariant
            i <= entries.len(),
            rp == remove.patterns(),
            kp == opt_set_patterns(*keep),
            pred == (|p: Seq<char>| is_chosen(rp, kp, p)),
            texts(out@) == texts(entries@).take(i as int).filter(pred),
        decreases entries.len() - i,
    {
        let path = entries[i].as_str();
        let hit = set_is_match(remove, path) && match keep {
            Some(k) => !set_is_match(k, path),
            None => true,
        };
        let ghost before = out@;
        proof {
            let pre = texts(entries@).take(i as int + 1);
            assert(pre.drop_last() =~= texts(entries@).take(i as int));
            assert(pre.last() == path@);
            reveal(Seq::filter);
            assert(hit == pred(path@));
        }
        if hit {
            out.push(entries[i].clone());
            proof {
                assert(texts(out@) =~= texts(before).push(path@));
            }
        }
        i = i + 1;
    }
    proof {
        assert(texts(entries@).take(i as int) =~= texts(entries@));
    }
    out
}

/// The program and arguments that rebuild the repository index.
pub open spec fn index_effect(repo: Seq<char>) -> Effect {
    Effect::Run {
        program: "eopkg"@,
        args: seq!["index"@, "--skip-signing"@, repo],
        dir: repo,
    }
}

/// What cleaning does with the chosen paths: print each one on a dry run,
/// otherwise remove each one and then rebuild the index if asked.
pub open spec fn clean_effects(
    dry_run: bool,
    index: bool,
    repo: Seq<char>,
    paths: Seq<Seq<char>>,
) -> Seq<Effect> {
    paths.map_values(
        |p: Seq<char>|
            if dry_run {
                Effect::Report(p)
            } else {
                Effect::RemoveFile(p)
            },
    ) + if index && !dry_run {
        seq![index_effect(repo)]
    } else {
        Seq::empty()
    }
}

/// Plans the index rebuild of `repo`.
pub fn index_action(repo: &str) -> (r: Action)
    ensures
        r@ == index_effect(repo@),
{
    let mut args: Vec<String> = Vec::new();
    args.push(String::from_str("index"));
    args.push(String::from_str("--skip-signing"));
    args.push(String::from_str(repo));
    proof {
        assert(texts(args@) =~= seq!["index"@, "--skip-signing"@, repo@]);
    }
    Action::Run { program: String::from_str("eopkg"), args, dir: String::from_str(repo) }
}

/// Plans what cleaning does with the chosen paths.
pub fn clean_actions(dry_run: bool, index: bool, repo: &str, paths: &Vec<String>) -> (r: Vec<
    Action,
>)
    ensures
        effects(r@) == clean_effects(dry_run, index, repo@, texts(paths@)),
{
    let ghost f = |p: Seq<char>|
        if dry_run {
            Effect::Report(p)
        } else {
            Effect::RemoveFile(p)
        };
    let mut out: Vec<Action> = Vec::new();
    let mut i: usize = 0;
    while i < paths.len()
        invariant
            i <= paths.len(),
            f == (|p: Seq<char>|
                if dry_run {
                    Effect::Report(p)
                } else {
                    Effect::RemoveFile(p)
                }),
            effects(out@) == texts(paths@).take(i as int).map_values(f),
        decreases paths.len() - i,
    {
        let p = paths[i].clone();
        let ghost before = out@;
        if dry_run {
            out.push(Action::Report(p));
        } else {
            out.push(Action::RemoveFile(p));
        }
        proof {
            assert(effects(out@) =~= effects(before).push(f(paths@[i as int]@)));
            assert(texts(paths@).take(i as int + 1).map_values(f) =~= texts(paths@).take(
                i as int,
            ).map_values(f).push(f(paths@[i as int]@)));
        }
        i = i + 1;
    }
    let ghost body = out@;
    proof {
        assert(texts(paths@).take(i as int) =~= texts(paths@));
    }
    if index && !dry_run {
        out.push(index_action(repo));
        proof {
            assert(effects(out@) =~= effects(body) + seq![index_effect(repo@)]);
        }
    } else {
        proof {
            assert(effects(out@) =~= effects(body) + Seq::<Effect>::empty());
        }
    }
    out
}

/// Why cleaning could not be planned.
#[derive(Debug)]
pub enum Error {
    /// A pattern is malformed, or the patterns could not be compiled.
    Glob(globset::Error),
}

/// Plans a clean of `repo`, whose entries are `entries` (full paths, in the
/// order the directory listed them).
///
/// Removal patterns are `repo/NAME*.eopkg` for each name of `remove`, or
/// `repo/*.eopkg` without names; keep patterns are built the same way from
/// `keep`, and none without names. Each entry that matches a removal
/// pattern and no keep pattern is reported on a dry run and removed
/// otherwise; after removals the index is rebuilt if `index` is set.
pub fn handle(
    dry_run: bool,
    index: bool,
    remove: Option<Vec<String>>,
    keep: Option<Vec<String>>,
    repo: &str,
    entries: &Vec<String>,
) -> (r: Result<Vec<Action>, Error>)
    ensures
        r is Ok <==> clean_compiles(repo@, opt_texts(remove), opt_texts(keep)),
        any_malformed(remove_globs(repo@, opt_texts(remove))) || any_malformed(
            keep_globs(repo@, opt_texts(keep)),
        ) ==> r is Err,
        r matches Ok(plan) ==> clean_plan(
            dry_run,
            index,
            repo@,
            opt_texts(remove),
            opt_texts(keep),
            texts(entries@),
        ) == Some(effects(plan@)),
        r matches Ok(plan) ==> (dry_run ==> forall|i: int|
            0 <= i < plan@.len() ==> !is_mutation((#[trigger] plan@[i])@)),
{
    let set = match removal_set(repo, &remove) {
        Ok(s) => s,
        Err(e) => return Err(Error::Glob(e)),
    };
    let keeper = match keeper_set(repo, &keep) {
        Ok(k) => k,
        Err(e) => return Err(Error::Glob(e)),
    };
    let paths = select(entries, &set, &keeper);
    let plan = clean_actions(dry_run, index, repo, &paths);
    proof {
        if dry_run {
            assert forall|i: int| 0 <= i < plan@.len() implies !is_mutation((#[trigger] plan@[i])@) by {
                assert(effects(plan@)[i] == plan@[i]@);
            }
        }
    }
    Ok(plan)
}

/// A path is chosen exactly when it is one of the entries and it matches a
/// removal pattern and no keep pattern.
pub proof fn lemma_chosen_contains(
    entries: Seq<Seq<char>>,
    remove: Seq<Seq<char>>,
    keep: Seq<Seq<char>>,
    path: Seq<char>,
)
    ensures
        chosen(entries, remove, keep).contains(path) <==> entries.contains(path) && is_chosen(
            remove,
            keep,
            path,
        ),
{
    let pred = |p: Seq<char>| is_chosen(remove, keep, p);
    if chosen(entries, remove, keep).contains(path) {
        entries.lemma_filter_contains_rev(pred, path);
        let k = choose|k: int| 0 <= k < entries.filter(pred).len() && entries.filter(pred)[k] == path;
        entries.lemma_filter_pred(pred, k);
    }
    if entries.contains(path) && is_chosen(remove, keep, path) {
        let k = choose|k: int| 0 <= k < entries.len() && entries[k] == path;
        entries.lemma_filter_contains(pred, k);
    }
}

/// Without keep names, cleaning chooses exactly the entries that match a
/// removal pattern.
pub proof fn lemma_no_keep_chooses_every_match(
    repo: Seq<char>,
    entries: Seq<Seq<char>>,
    remove: Option<Seq<Seq<char>>>,
)
    ensures
        forall|p: Seq<char>|
            #[trigger] chosen(entries, remove_globs(repo, remove), keep_globs(repo, None)).contains(
                p,
            ) <==> entries.contains(p) && matches_any(remove_globs(repo, remove), p),
{
    assert forall|p: Seq<char>|
        #[trigger] chosen(entries, remove_globs(repo, remove), keep_globs(repo, None)).contains(
            p,
        ) <==> entries.contains(p) && matches_any(remove_globs(repo, remove), p) by {
        lemma_chosen_contains(entries, remove_globs(repo, remove), keep_globs(repo, None), p);
    }
}

/// Keep wins: no chosen path matches any keep pattern, whatever the
/// removal names are.
pub proof fn lemma_keep_wins(
    repo: Seq<char>,
    entries: Seq<Seq<char>>,
    remove: Option<Seq<Seq<char>>>,
    keep: Option<Seq<Seq<char>>>,
)
    ensures
        forall|i: int, j: int|
            0 <= i < chosen(entries, remove_globs(repo, remove), keep_globs(repo, keep)).len() && 0
                <= j < keep_globs(repo, keep).len() ==> !glob_matches(
                #[trigger] keep_globs(repo, keep)[j],
                #[trigger] chosen(entries, remove_globs(repo, remove), keep_globs(repo, keep))[i],
            ),
{
    let rg = remove_globs(repo, remove);
    let kg = keep_globs(repo, keep);
    let pred = |p: Seq<char>| is_chosen(rg, kg, p);
    assert forall|i: int, j: int|
        0 <= i < chosen(entries, rg, kg).len() && 0 <= j < kg.len() implies !glob_matches(
        #[trigger] kg[j],
        #[trigger] chosen(entries, rg, kg)[i],
    ) by {
        entries.lemma_filter_pred(pred, i);
    }
}

/// With neither removal nor keep names, cleaning chooses exactly the entries
/// that match `repo/*.eopkg`.
pub proof fn lemma_default_chooses_all_packages(repo: Seq<char>, entries: Seq<Seq<char>>)
    ensures
        forall|p: Seq<char>|
            #[trigger] chosen(entries, remove_globs(repo, None), keep_globs(repo, None)).contains(
                p,
            ) <==> entries.contains(p) && glob_matches(any_package_glob(repo), p),
{
    assert forall|p: Seq<char>|
        #[trigger] chosen(entries, remove_globs(repo, None), keep_globs(repo, None)).contains(
            p,
        ) <==> entries.contains(p) && glob_matches(any_package_glob(repo), p) by {
        lemma_chosen_contains(entries, remove_globs(repo, None), keep_globs(repo, None), p);
        if glob_matches(any_package_glob(repo), p) {
            assert(remove_globs(repo, None)[0] == any_package_glob(repo));
        }
    }
}

proof fn lemma_filter_twice(s: Seq<Seq<char>>, pred: spec_fn(Seq<char>) -> bool)
    ensures
        s.filter(pred).filter(pred) == s.filter(pred),
    decreases s.len(),
{
    reveal(Seq::filter);
    if s.len() > 0 {
        lemma_filter_twice(s.drop_last(), pred);
        let inner = s.drop_last().filter(pred);
        if pred(s.last()) {
            assert(inner.push(s.last()).drop_last() =~= inner);
        }
    }
}

/// Choosing is repeatable: choosing again among the chosen entries, with the
/// same patterns, gives the same paths in the same order.
pub proof fn lemma_choice_idempotent(
    entries: Seq<Seq<char>>,
    remove: Seq<Seq<char>>,
    keep: Seq<Seq<char>>,
)
    ensures
        chosen(chosen(entries, remove, keep), remove, keep) == chosen(entries, remove, keep),
{
    lemma_filter_twice(entries, |p: Seq<char>| is_chosen(remove, keep, p));
}

/// A dry run changes nothing: every effect of a dry-run clean only prints,
/// whatever the paths, patterns and index flag.
pub proof fn lemma_dry_run_changes_nothing(index: bool, repo: Seq<char>, paths: Seq<Seq<char>>)
    ensures
        forall|i: int|
            0 <= i < clean_effects(true, index, repo, paths).len() ==> !is_mutation(
                #[trigger] clean_effects(true, index, repo, paths)[i],
            ),
{
}

/// Whether one of the effects removes `path`.
pub open spec fn removes(effs: Seq<Effect>, path: Seq<char>) -> bool {
    exists|i: int| 0 <= i < effs.len() && effs[i] == Effect::RemoveFile(path)
}

/// The entries left in place once the effects have been carried out.
pub open spec fn remaining(entries: Seq<Seq<char>>, effs: Seq<Effect>) -> Seq<Seq<char>> {
    entries.filter(|e: Seq<char>| !removes(effs, e))
}

/// The entries left after a clean: all of them when it could not be planned.
pub open spec fn after_clean(entries: Seq<Seq<char>>, plan: Option<Seq<Effect>>) -> Seq<Seq<char>> {
    match plan {
        Some(effs) => remaining(entries, effs),
        None => entries,
    }
}

proof fn lemma_filter_keeps_all(s: Seq<Seq<char>>, pred: spec_fn(Seq<char>) -> bool)
    requires
        forall|i: int| 0 <= i < s.len() ==> pred(#[trigger] s[i]),
    ensures
        s.filter(pred) == s,
    decreases s.len(),
{
    reveal(Seq::filter);
    if s.len() > 0 {
        assert forall|i: int| 0 <= i < s.drop_last().len() implies pred(
            #[trigger] s.drop_last()[i],
        ) by {
            assert(s.drop_last()[i] == s[i]);
        }
        lemma_filter_keeps_all(s.drop_last(), pred);
        assert(pred(s[s.len() - 1]));
        assert(s.drop_last().push(s.last()) =~= s);
    }
}

/// A dry run is repeatable: it leaves every entry in place, so a second dry
/// run with the same arguments on the directory it leaves has the same
/// outcome as the first, success or failure.
pub proof fn lemma_dry_run_repeatable(
    index: bool,
    repo: Seq<char>,
    remove: Option<Seq<Seq<char>>>,
    keep: Option<Seq<Seq<char>>>,
    entries: Seq<Seq<char>>,
)
    ensures
        after_clean(entries, clean_plan(true, index, repo, remove, keep, entries)) == entries,
        clean_plan(
            true,
            index,
            repo,
            remove,
            keep,
            after_clean(entries, clean_plan(true, index, repo, remove, keep, entries)),
        ) == clean_plan(true, index, repo, remove, keep, entries),
{
    if let Some(effs) = clean_plan(true, index, repo, remove, keep, entries) {
        assert forall|i: int| 0 <= i < entries.len() implies !removes(effs, #[trigger] entries[i]) by {
            if removes(effs, entries[i]) {
                let k = choose|k: int| 0 <= k < effs.len() && effs[k] == Effect::RemoveFile(entries[i]);
                lemma_dry_run_changes_nothing(
                    index,
                    repo,
                    chosen(entries, remove_globs(repo, remove), keep_globs(repo, keep)),
                );
                assert(!is_mutation(effs[k]));
            }
        }
        lemma_filter_keeps_all(entries, |e: Seq<char>| !removes(effs, e));
    }
}

/// Cleaning twice removes nothing the second time: once a clean has been
/// carried out, the same removal and keep names choose no entry of what it
/// left.
pub proof fn lemma_second_clean_chooses_nothing(
    index: bool,
    repo: Seq<char>,
    remove: Option<Seq<Seq<char>>>,
    keep: Option<Seq<Seq<char>>>,
    entries: Seq<Seq<char>>,
)
    ensures
        clean_plan(false, index, repo, remove, keep, entries) is Some ==> chosen(
            after_clean(entries, clean_plan(false, index, repo, remove, keep, entries)),
            remove_globs(repo, remove),
            keep_globs(repo, keep),
        ).len() == 0,
{
    if let Some(effs) = clean_plan(false, index, repo, remove, keep, entries) {
        let rg = remove_globs(repo, remove);
        let kg = keep_globs(repo, keep);
        let c = chosen(entries, rg, kg);
        let rem = remaining(entries, effs);
        let again = chosen(rem, rg, kg);
        if again.len() > 0 {
            let e = again[0];
            assert(again.contains(e));
            lemma_chosen_contains(rem, rg, kg, e);
            let pred = |x: Seq<char>| !removes(effs, x);
            let k = choose|k: int| 0 <= k < rem.len() && rem[k] == e;
            entries.lemma_filter_pred(pred, k);
            entries.lemma_filter_contains_rev(pred, e);
            lemma_chosen_contains(entries, rg, kg, e);
            let j = choose|j: int| 0 <= j < c.len() && c[j] == e;
            assert(effs[j] == Effect::RemoveFile(e));
            assert(removes(effs, e));
        }
    }
}

} // verus!
