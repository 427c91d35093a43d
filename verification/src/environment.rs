//! The environment of the packer: which variables are put aside while it
//! runs, and how each gets its value back.
//!
//! The package manager sets variables for the build script that bundles the
//! application. They must not reach the packer, which builds another unit.
//! So they are saved and removed before the packer runs, together with the
//! variables that the caller names, and restored after it: a variable that
//! was set gets its value back, and one that was not set is removed again,
//! whatever the packer did to it.

use vstd::prelude::*;
use vstd::string::*;
use crate::text::{is_prefix, no_texts, push_text, same_text, starts_with, text_of, views};

verus! {

/// A variable that was put aside: its name, and the value it had, if it had
/// one.
#[derive(Debug)]
pub struct SavedVariable {
    /// The variable's name.
    pub key: String,
    /// The value to give back; `None` where the variable was not set.
    pub value: Option<String>,
}

/// What is to be done to one variable.
#[derive(Debug)]
pub enum EnvAction {
    /// Set the variable to the value.
    Assign(String, String),
    /// Remove the variable.
    Remove(String),
}

/// The names and values of a list of saved variables. An entry also stands
/// for an action: with a value, set the variable to it; without, remove the
/// variable.
pub open spec fn saved_views(list: Seq<SavedVariable>) -> Seq<(Seq<char>, Option<Seq<char>>)> {
    Seq::new(list.len(), |i: int| (list[i].key@, text_of(list[i].value)))
}

/// What a list of actions does, entry by entry.
pub open spec fn action_views(list: Seq<EnvAction>) -> Seq<(Seq<char>, Option<Seq<char>>)> {
    Seq::new(
        list.len(),
        |i: int|
            match list[i] {
                EnvAction::Assign(key, value) => (key@, Some(value@)),
                EnvAction::Remove(key) => (key@, None),
            },
    )
}

/// The variables that the package manager sets for a build script, one by
/// one.
pub open spec fn script_variables() -> Seq<Seq<char>> {
    seq![
        "CARGO"@,
        "CARGO_MANIFEST_DIR"@,
        "CARGO_MANIFEST_LINKS"@,
        "CARGO_MAKEFLAGS"@,
        "OUT_DIR"@,
        "TARGET"@,
        "HOST"@,
        "NUM_JOBS"@,
        "OPT_LEVEL"@,
        "DEBUG"@,
        "PROFILE"@,
        "RUSTC"@,
        "RUSTDOC"@,
        "RUSTC_LINKER"@,
    ]
}

/// The variable belongs to one of the families that the package manager sets
/// for a build script.
pub open spec fn script_variable_family(key: Seq<char>) -> bool {
    is_prefix("CARGO_FEATURE_"@, key) || is_prefix("CARGO_CFG_"@, key) || is_prefix("DEP_"@, key)
}

/// The value of a variable in an environment given as a list of names and
/// values: that of the first entry of that name.
pub open spec fn value_of(env: Seq<(String, String)>, key: Seq<char>) -> Option<Seq<char>>
    decreases env.len(),
{
    if env.len() == 0 {
        None
    } else if env[0].0@ == key {
        Some(env[0].1@)
    } else {
        value_of(env.drop_first(), key)
    }
}

/// The names in the environment that belong to one of the families, in the
/// order of the environment.
pub open spec fn family_keys(env: Seq<(String, String)>) -> Seq<Seq<char>>
    decreases env.len(),
{
    if env.len() == 0 {
        Seq::empty()
    } else if script_variable_family(env.last().0@) {
        family_keys(env.drop_last()).push(env.last().0@)
    } else {
        family_keys(env.drop_last())
    }
}

/// The variables that are put aside: the single ones, those that the caller
/// adds, and those of the environment that belong to a family.
pub open spec fn saved_keys(env: Seq<(String, String)>, additional: Seq<String>) -> Seq<
    Seq<char>,
> {
    script_variables() + views(additional) + family_keys(env)
}

/// Each of the names with the value it has in the environment.
pub open spec fn plan_for(env: Seq<(String, String)>, keys: Seq<Seq<char>>) -> Seq<
    (Seq<char>, Option<Seq<char>>),
> {
    Seq::new(keys.len(), |i: int| (keys[i], value_of(env, keys[i])))
}

/// What is saved of an environment: each variable that is put aside, with
/// the value it has.
pub open spec fn saved_plan(env: Seq<(String, String)>, additional: Seq<String>) -> Seq<
    (Seq<char>, Option<Seq<char>>),
> {
    plan_for(env, saved_keys(env, additional))
}

/// Each of the names, to be removed.
pub open spec fn clear_plan(keys: Seq<Seq<char>>) -> Seq<(Seq<char>, Option<Seq<char>>)> {
    Seq::new(keys.len(), |i: int| (keys[i], None::<Seq<char>>))
}

/// The environment as a map from names to values.
pub open spec fn env_map(env: Seq<(String, String)>) -> Map<Seq<char>, Seq<char>> {
    Map::new(|key: Seq<char>| value_of(env, key) is Some, |key: Seq<char>| value_of(env, key)->0)
}

/// The environment after the actions, one after the other.
pub open spec fn apply(
    actions: Seq<(Seq<char>, Option<Seq<char>>)>,
    env: Map<Seq<char>, Seq<char>>,
) -> Map<Seq<char>, Seq<char>>
    decreases actions.len(),
{
    if actions.len() == 0 {
        env
    } else {
        let before = apply(actions.drop_last(), env);
        match actions.last().1 {
            Some(value) => before.insert(actions.last().0, value),
            None => before.remove(actions.last().0),
        }
    }
}

/// The variable is one of the single ones that the package manager sets for
/// a build script.
pub open spec fn script_variable(key: Seq<char>) -> bool {
    ||| key == "CARGO"@
    ||| key == "CARGO_MANIFEST_DIR"@
    ||| key == "CARGO_MANIFEST_LINKS"@
    ||| key == "CARGO_MAKEFLAGS"@
    ||| key == "OUT_DIR"@
    ||| key == "TARGET"@
    ||| key == "HOST"@
    ||| key == "NUM_JOBS"@
    ||| key == "OPT_LEVEL"@
    ||| key == "DEBUG"@
    ||| key == "PROFILE"@
    ||| key == "RUSTC"@
    ||| key == "RUSTDOC"@
    ||| key == "RUSTC_LINKER"@
}

/// The variable is one of `additional`.
pub open spec fn listed(additional: Seq<String>, key: Seq<char>) -> bool {
    exists|i: int| 0 <= i < additional.len() && #[trigger] additional[i]@ == key
}

/// Is the variable put aside while the packer runs, where it is set? Those
/// are the variables that the package manager sets for a build script, alone
/// or in families, and those that the caller adds.
pub fn is_cleared_variable(
    key: &str,
    additional: &Vec<String>,
) -> (r: bool)
    ensures
        r == (script_variable(key@) || script_variable_family(key@) || listed(
            additional@,
            key@,
        )),
{
    if same_text(key, "CARGO") || same_text(key, "CARGO_MANIFEST_DIR") || same_text(
        key,
        "CARGO_MANIFEST_LINKS",
    ) || same_text(key, "CARGO_MAKEFLAGS") || same_text(key, "OUT_DIR") || same_text(
        key,
        "TARGET",
    ) || same_text(key, "HOST") || same_text(key, "NUM_JOBS") || same_text(key, "OPT_LEVEL")
        || same_text(key, "DEBUG") || same_text(key, "PROFILE") || same_text(key, "RUSTC")
        || same_text(key, "RUSTDOC") || same_text(key, "RUSTC_LINKER") {
        return true;
    }
    if is_family_variable(key) {
        return true;
    }
    let mut i: usize = 0;
    while i < additional.len()
        invariant
            i <= additional@.len(),
            forall|j: int| 0 <= j < i ==> (#[trigger] additional@[j])@ != key@,
        decreases additional@.len() - i,
    {
        if same_text(additional[i].as_str(), key) {
            return true;
        }
        i += 1;
    }
    false
}

/// The variable is named in the environment.
pub open spec fn named_in(env: Seq<(String, String)>, key: Seq<char>) -> bool {
    exists|j: int| 0 <= j < env.len() && (#[trigger] env[j]).0@ == key
}

/// A variable has a value exactly where the environment names it.
pub proof fn lemma_value_of(env: Seq<(String, String)>, key: Seq<char>)
    ensures
        value_of(env, key) is Some <==> named_in(env, key),
    decreases env.len(),
{
    if env.len() > 0 {
        let tail = env.drop_first();
        lemma_value_of(tail, key);
        if env[0].0@ != key {
            if named_in(env, key) {
                let j = choose|j: int| 0 <= j < env.len() && (#[trigger] env[j]).0@ == key;
                assert(tail[j - 1] == env[j]);
            }
            if named_in(tail, key) {
                let j = choose|j: int| 0 <= j < tail.len() && (#[trigger] tail[j]).0@ == key;
                assert(env[j + 1] == tail[j]);
            }
        }
    }
}

/// The family names of an environment are the names in it that belong to a
/// family.
pub proof fn lemma_family_keys(env: Seq<(String, String)>, key: Seq<char>)
    ensures
        family_keys(env).contains(key) <==> script_variable_family(key) && named_in(env, key),
    decreases env.len(),
{
    if env.len() > 0 {
        let head = env.drop_last();
        lemma_family_keys(head, key);
        let keys = family_keys(head);
        if named_in(head, key) {
            let j = choose|j: int| 0 <= j < head.len() && (#[trigger] head[j]).0@ == key;
            assert(env[j] == head[j]);
        }
        if named_in(env, key) && env.last().0@ != key {
            let j = choose|j: int| 0 <= j < env.len() && (#[trigger] env[j]).0@ == key;
            assert(head[j] == env[j]);
        }
        if script_variable_family(env.last().0@) {
            let now = keys.push(env.last().0@);
            if keys.contains(key) {
                let i = choose|i: int| 0 <= i < keys.len() && keys[i] == key;
                assert(now[i] == key);
            }
            if now.contains(key) && env.last().0@ != key {
                let i = choose|i: int| 0 <= i < now.len() && now[i] == key;
                assert(keys[i] == key);
            }
            if env.last().0@ == key {
                assert(now[now.len() - 1] == key);
                assert(env[env.len() - 1].0@ == key);
            }
        }
    }
}

/// Which variables are put aside: the single ones and the added ones, set or
/// not, and those of a family that are set.
pub proof fn lemma_saved_keys(env: Seq<(String, String)>, additional: Seq<String>, key: Seq<char>)
    ensures
        saved_keys(env, additional).contains(key) <==> script_variable(key) || listed(
            additional,
            key,
        ) || (script_variable_family(key) && value_of(env, key) is Some),
{
    lemma_value_of(env, key);
    lemma_family_keys(env, key);
    let single = script_variables();
    let added = views(additional);
    let families = family_keys(env);
    let all = saved_keys(env, additional);
    if script_variable(key) {
        let i = choose|i: int| 0 <= i < single.len() && single[i] == key;
        assert(all[i] == key);
    }
    if listed(additional, key) {
        let i = choose|i: int| 0 <= i < additional.len() && #[trigger] additional[i]@ == key;
        assert(added[i] == key);
        assert(all[single.len() + i] == key);
    }
    if families.contains(key) {
        let i = choose|i: int| 0 <= i < families.len() && families[i] == key;
        assert(all[single.len() + added.len() + i] == key);
    }
    if all.contains(key) {
        let i = choose|i: int| 0 <= i < all.len() && all[i] == key;
        if i < single.len() {
            assert(single[i] == key);
        } else if i < single.len() + added.len() {
            assert(added[i - single.len()] == key);
            assert(additional[i - single.len()]@ == key);
        } else {
            assert(families[i - single.len() - added.len()] == key);
        }
    }
}

/// The value of the variable in the environment.
pub fn lookup(env: &Vec<(String, String)>, key: &str) -> (r: Option<String>)
    ensures
        text_of(r) == value_of(env@, key@),
{
    let mut i: usize = 0;
    assert(env@.skip(0) =~= env@);
    while i < env.len()
        invariant
            i <= env@.len(),
            value_of(env@, key@) == value_of(env@.skip(i as int), key@),
        decreases env@.len() - i,
    {
        assert(env@.skip(i as int)[0] == env@[i as int]);
        assert(env@.skip(i as int).drop_first() =~= env@.skip(i + 1));
        if same_text(env[i].0.as_str(), key) {
            return Some(env[i].1.clone());
        }
        i += 1;
    }
    None
}

/// Does the variable belong to one of the families?
pub fn is_family_variable(key: &str) -> (r: bool)
    ensures
        r == script_variable_family(key@),
{
    starts_with(key, "CARGO_FEATURE_") || starts_with(key, "CARGO_CFG_") || starts_with(
        key,
        "DEP_",
    )
}

/// The single variables that the package manager sets for a build script.
pub fn script_variable_names() -> (r: Vec<String>)
    ensures
        views(r@) == script_variables(),
{
    let mut names = no_texts();
    push_text(&mut names, "CARGO");
    push_text(&mut names, "CARGO_MANIFEST_DIR");
    push_text(&mut names, "CARGO_MANIFEST_LINKS");
    push_text(&mut names, "CARGO_MAKEFLAGS");
    push_text(&mut names, "OUT_DIR");
    push_text(&mut names, "TARGET");
    push_text(&mut names, "HOST");
    push_text(&mut names, "NUM_JOBS");
    push_text(&mut names, "OPT_LEVEL");
    push_text(&mut names, "DEBUG");
    push_text(&mut names, "PROFILE");
    push_text(&mut names, "RUSTC");
    push_text(&mut names, "RUSTDOC");
    push_text(&mut names, "RUSTC_LINKER");
    assert(views(names@) =~= script_variables());
    names
}

/// Adds each of the names, with the value it has in the environment.
fn save_all(env: &Vec<(String, String)>, keys: &Vec<String>, saved: &mut Vec<SavedVariable>)
    ensures
        saved_views(final(saved)@) == saved_views(old(saved)@) + plan_for(env@, views(keys@)),
{
    let ghost before = saved_views(saved@);
    let mut i: usize = 0;
    assert(saved_views(saved@) =~= before + plan_for(env@, views(keys@)).take(0));
    while i < keys.len()
        invariant
            i <= keys@.len(),
            saved_views(saved@) == before + plan_for(env@, views(keys@)).take(i as int),
        decreases keys@.len() - i,
    {
        let ghost so_far = saved_views(saved@);
        let value = lookup(env, keys[i].as_str());
        saved.push(SavedVariable { key: keys[i].clone(), value });
        assert(saved_views(saved@) =~= so_far.push((keys@[i as int]@, value_of(env@, keys@[i as int]@))));
        assert(saved_views(saved@) =~= before + plan_for(env@, views(keys@)).take(i + 1));
        i += 1;
    }
    assert(plan_for(env@, views(keys@)).take(keys@.len() as int) =~= plan_for(env@, views(keys@)));
}

/// The names in the environment that belong to one of the families.
fn family_names(env: &Vec<(String, String)>) -> (r: Vec<String>)
    ensures
        views(r@) == family_keys(env@),
{
    let mut names = no_texts();
    let mut i: usize = 0;
    assert(views(names@) =~= family_keys(env@.take(0)));
    while i < env.len()
        invariant
            i <= env@.len(),
            views(names@) == family_keys(env@.take(i as int)),
        decreases env@.len() - i,
    {
        assert(env@.take(i + 1).drop_last() =~= env@.take(i as int));
        assert(env@.take(i + 1).last() == env@[i as int]);
        if is_family_variable(env[i].0.as_str()) {
            push_text(&mut names, env[i].0.as_str());
        }
        i += 1;
    }
    assert(env@.take(env@.len() as int) =~= env@);
    names
}

/// What is saved of the environment before the packer runs: each variable
/// that is put aside, with the value it has. Each of them is then removed.
pub fn saved_environment(env: &Vec<(String, String)>, additional: &Vec<String>) -> (r: Vec<
    SavedVariable,
>)
    ensures
        saved_views(r@) == saved_plan(env@, additional@),
{
    let mut saved: Vec<SavedVariable> = Vec::new();
    assert(saved_views(saved@) =~= Seq::empty());
    let single = script_variable_names();
    save_all(env, &single, &mut saved);
    save_all(env, additional, &mut saved);
    let families = family_names(env);
    save_all(env, &families, &mut saved);
    assert(saved_views(saved@) =~= saved_plan(env@, additional@));
    saved
}

/// The actions that remove each saved variable, before the packer runs.
pub fn clear_actions(saved: &Vec<SavedVariable>) -> (r: Vec<EnvAction>)
    ensures
        action_views(r@) == Seq::new(
            saved@.len(),
            |i: int| (saved@[i].key@, None::<Seq<char>>),
        ),
{
    let mut actions: Vec<EnvAction> = Vec::new();
    let ghost wanted = Seq::new(saved@.len(), |i: int| (saved@[i].key@, None::<Seq<char>>));
    let mut i: usize = 0;
    assert(action_views(actions@) =~= wanted.take(0));
    while i < saved.len()
        invariant
            i <= saved@.len(),
            wanted == Seq::new(saved@.len(), |i: int| (saved@[i].key@, None::<Seq<char>>)),
            action_views(actions@) == wanted.take(i as int),
        decreases saved@.len() - i,
    {
        let ghost before = action_views(actions@);
        actions.push(EnvAction::Remove(saved[i].key.clone()));
        assert(action_views(actions@) =~= before.push((saved@[i as int].key@, None::<Seq<char>>)));
        assert(action_views(actions@) =~= wanted.take(i + 1));
        i += 1;
    }
    assert(wanted.take(saved@.len() as int) =~= wanted);
    actions
}

/// The actions that give each saved variable its value back, after the
/// packer ran: one that had a value is set to it, one that had none is
/// removed.
pub fn restore_actions(saved: &Vec<SavedVariable>) -> (r: Vec<EnvAction>)
    ensures
        action_views(r@) == saved_views(saved@),
{
    let mut actions: Vec<EnvAction> = Vec::new();
    let mut i: usize = 0;
    assert(action_views(actions@) =~= saved_views(saved@).take(0));
    while i < saved.len()
        invariant
            i <= saved@.len(),
            action_views(actions@) == saved_views(saved@).take(i as int),
        decreases saved@.len() - i,
    {
        let ghost before = action_views(actions@);
        let action = match &saved[i].value {
            Some(value) => EnvAction::Assign(saved[i].key.clone(), value.clone()),
            None => EnvAction::Remove(saved[i].key.clone()),
        };
        actions.push(action);
        assert(action_views(actions@) =~= before.push(saved_views(saved@)[i as int]));
        assert(action_views(actions@) =~= saved_views(saved@).take(i + 1));
        i += 1;
    }
    assert(saved_views(saved@).take(saved@.len() as int) =~= saved_views(saved@));
    actions
}

/// Actions that give each of their variables the value it has in `env`
/// leave every such variable as it is in `env`, and every other variable as
/// it was.
pub proof fn lemma_apply_plan(
    env: Seq<(String, String)>,
    keys: Seq<Seq<char>>,
    after: Map<Seq<char>, Seq<char>>,
    key: Seq<char>,
)
    ensures
        keys.contains(key) ==> (apply(plan_for(env, keys), after).contains_key(key) <==> value_of(
            env,
            key,
        ) is Some),
        keys.contains(key) && value_of(env, key) is Some ==> apply(plan_for(env, keys), after)[key]
            == value_of(env, key)->0,
        !keys.contains(key) ==> (apply(plan_for(env, keys), after).contains_key(key)
            <==> after.contains_key(key)),
        !keys.contains(key) && after.contains_key(key) ==> apply(plan_for(env, keys), after)[key]
            == after[key],
    decreases keys.len(),
{
    if keys.len() > 0 {
        let head = keys.drop_last();
        assert(plan_for(env, keys).drop_last() =~= plan_for(env, head));
        lemma_apply_plan(env, head, after, key);
        if keys.contains(key) && keys.last() != key {
            let i = choose|i: int| 0 <= i < keys.len() && keys[i] == key;
            assert(head[i] == key);
        }
        if head.contains(key) {
            let i = choose|i: int| 0 <= i < head.len() && head[i] == key;
            assert(keys[i] == key);
        }
        if keys.last() == key {
            assert(keys[keys.len() - 1] == key);
        }
    }
}

/// Removing each of the variables leaves none of them, and every other
/// variable as it was.
pub proof fn lemma_apply_clear(
    keys: Seq<Seq<char>>,
    env: Map<Seq<char>, Seq<char>>,
    key: Seq<char>,
)
    ensures
        keys.contains(key) ==> !apply(clear_plan(keys), env).contains_key(key),
        !keys.contains(key) ==> (apply(clear_plan(keys), env).contains_key(key)
            <==> env.contains_key(key)),
        !keys.contains(key) && env.contains_key(key) ==> apply(clear_plan(keys), env)[key]
            == env[key],
    decreases keys.len(),
{
    if keys.len() > 0 {
        let head = keys.drop_last();
        assert(clear_plan(keys).drop_last() =~= clear_plan(head));
        lemma_apply_clear(head, env, key);
        if keys.contains(key) && keys.last() != key {
            let i = choose|i: int| 0 <= i < keys.len() && keys[i] == key;
            assert(head[i] == key);
        }
        if head.contains(key) {
            let i = choose|i: int| 0 <= i < head.len() && head[i] == key;
            assert(keys[i] == key);
        }
        if keys.last() == key {
            assert(keys[keys.len() - 1] == key);
        }
    }
}

/// Each variable gets its value back: whatever the environment holds after
/// the packer ran, the restoring actions leave every saved variable as it was
/// before, set to its old value or not set, and touch no other variable.
pub proof fn lemma_restore_gives_values_back(
    env: Seq<(String, String)>,
    additional: Seq<String>,
    after: Map<Seq<char>, Seq<char>>,
    key: Seq<char>,
)
    ensures
        ({
            let restored = apply(saved_plan(env, additional), after);
            let saved = saved_keys(env, additional).contains(key);
            &&& saved ==> (restored.contains_key(key) <==> env_map(env).contains_key(key))
            &&& saved && env_map(env).contains_key(key) ==> restored[key] == env_map(env)[key]
            &&& !saved ==> (restored.contains_key(key) <==> after.contains_key(key))
            &&& !saved && after.contains_key(key) ==> restored[key] == after[key]
        }),
{
    lemma_apply_plan(env, saved_keys(env, additional), after, key);
}

/// The round trip: where the packer changed no variable but saved ones,
/// the environment after restoring is the environment before saving.
pub proof fn lemma_environment_comes_back(
    env: Seq<(String, String)>,
    additional: Seq<String>,
    after: Map<Seq<char>, Seq<char>>,
)
    requires
        forall|key: Seq<char>|
            !(#[trigger] saved_keys(env, additional).contains(key)) ==> (after.contains_key(key)
                <==> env_map(env).contains_key(key)) && (after.contains_key(key) ==> after[key]
                == env_map(env)[key]),
    ensures
        apply(saved_plan(env, additional), after) == env_map(env),
{
    let restored = apply(saved_plan(env, additional), after);
    assert forall|key: Seq<char>| #[trigger]
        restored.contains_key(key) == env_map(env).contains_key(key) by {
        lemma_restore_gives_values_back(env, additional, after, key);
        if !saved_keys(env, additional).contains(key) {
            assert(after.contains_key(key) <==> env_map(env).contains_key(key));
        }
    }
    assert forall|key: Seq<char>| #[trigger] restored.contains_key(key) implies restored[key]
        == env_map(env)[key] by {
        lemma_restore_gives_values_back(env, additional, after, key);
        if !saved_keys(env, additional).contains(key) {
            assert(after.contains_key(key) <==> env_map(env).contains_key(key));
        }
    }
    assert(restored =~= env_map(env));
}

/// The packer sees none of the saved variables, and every other variable as
/// it is.
pub proof fn lemma_packer_sees_a_clean_environment(
    env: Seq<(String, String)>,
    additional: Seq<String>,
    key: Seq<char>,
)
    ensures
        ({
            let seen = apply(clear_plan(saved_keys(env, additional)), env_map(env));
            let saved = saved_keys(env, additional).contains(key);
            &&& saved ==> !seen.contains_key(key)
            &&& !saved ==> (seen.contains_key(key) <==> env_map(env).contains_key(key))
            &&& !saved && seen.contains_key(key) ==> seen[key] == env_map(env)[key]
        }),
{
    lemma_apply_clear(saved_keys(env, additional), env_map(env), key);
}

} // verus!
