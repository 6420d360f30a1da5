//! `env-file` parsing: the `KEY=VALUE` pairs a service loads at session start.
//!
//! The syntax is the standard dotenv one (comments, `export KEY=VALUE`, single
//! and double quotes, escapes, `$VAR` substitution), read by `dotenvy`. The
//! process' own environment is never touched: the values belong to the child,
//! exactly like the `env` table.
//!
//! Failure is loud, as everywhere else in the config: a `.env` an agent mistyped
//! must stop the start instead of silently running with half the variables.

use vstd::prelude::*;
use vstd::string::*;

use crate::envmap::EnvMap;
use crate::paths;
use crate::paths::FsPath;
use crate::text;

verus! {

/// What reading an env-file came to.
pub enum EnvSource {
    /// The file cannot be opened, and why.
    Unopened(String),
    /// The file was opened and cannot be read, and why.
    Broken(String),
    /// The bytes of the file.
    Bytes(Vec<u8>),
}

/// One step of reading a dotenv file: a variable, or the failure of a line with
/// its text; the flag tells a line that is no assignment from other failures.
pub type Item = Result<(String, String), (bool, String)>;

/// A step as plain values.
pub type ItemView = Result<(Seq<char>, Seq<char>), (bool, Seq<char>)>;

pub open spec fn plain(item: Item) -> ItemView {
    match item {
        Ok(pair) => Ok((pair.0@, pair.1@)),
        Err(failure) => Err((failure.0, failure.1@)),
    }
}

pub open spec fn plains(items: Seq<Item>) -> Seq<ItemView> {
    items.map_values(|item: Item| plain(item))
}

/// A name as dotenv files declare them: a letter or `_`, then letters, digits,
/// `_` and `.`.
pub open spec fn env_name(s: Seq<char>) -> bool {
    &&& s.len() > 0
    &&& text::ascii_alphanumeric(s[0]) && !('0' <= s[0] <= '9') || s[0] == '_'
    &&& forall|i: int|
        0 <= i < s.len() ==> text::ascii_alphanumeric(#[trigger] s[i]) || s[i] == '_' || s[i] == '.'
}

/// A step without its value: the name it declares, or the failure.
pub type Step = Result<Seq<char>, (bool, Seq<char>)>;

pub open spec fn step_of(item: ItemView) -> Step {
    match item {
        Ok(pair) => Ok(pair.0),
        Err(failure) => Err(failure),
    }
}

pub open spec fn steps_of(items: Seq<ItemView>) -> Seq<Step> {
    items.map_values(|item: ItemView| step_of(item))
}

/// The steps of reading a dotenv file. `found` is what the environment of the
/// process answered to each look-up of a variable in turn; past its end, and where
/// it holds `None`, there was no such variable.
pub uninterp spec fn dotenv_read(bytes: Seq<u8>, found: Seq<Option<Seq<char>>>) -> Seq<ItemView>;

/// The steps of reading a dotenv file where the environment sets nothing.
pub open spec fn dotenv_items(bytes: Seq<u8>) -> Seq<ItemView> {
    dotenv_read(bytes, Seq::empty())
}

/// The names that a dotenv file declares and the failures of its lines, in order.
pub open spec fn dotenv_steps(bytes: Seq<u8>) -> Seq<Step> {
    steps_of(dotenv_items(bytes))
}

/// `dotenvy::from_read_iter` over the bytes, item by item. Every name is a
/// letter or `_` followed by letters, digits, `_` and `.`. The items are a
/// function of the bytes and of what the environment answered to the look-ups
/// that substitution makes, whatever that was. A substitution only adds to the
/// value of its line: the names, and which lines fail with which text, follow from
/// the bytes alone, and so does everything where the text holds no `$`. What the
/// environment answers is not stated.
#[verifier::external_body]
fn read_items(bytes: &[u8]) -> (out: Vec<Item>)
    ensures
        forall|i: int|
            0 <= i < out@.len() ==> (#[trigger] out@[i] matches Ok(pair) ==> env_name(pair.0@)),
        exists|found: Seq<Option<Seq<char>>>| plains(out@) == #[trigger] dotenv_read(bytes@, found),
        steps_of(plains(out@)) == dotenv_steps(bytes@),
        !bytes@.contains(36) ==> plains(out@) == dotenv_items(bytes@),
{
    dotenvy::from_read_iter(bytes)
        .map(|item| match item {
            Ok(pair) => Ok(pair),
            Err(dotenvy::Error::LineParse(line, at)) => {
                Err((true, dotenvy::Error::LineParse(line, at).to_string()))
            },
            Err(other) => Err((false, other.to_string())),
        })
        .collect()
}

/// The fix for a line that is no assignment. The parser's own message names the
/// offending fragment but not what to do about it.
pub open spec fn hint(line_failed: bool) -> Seq<char> {
    if line_failed {
        " (a line must be KEY=VALUE, and a value containing spaces or '#' must be quoted: KEY=\"a value\")"@
    } else {
        Seq::empty()
    }
}

/// What reading on with `items` leaves, after `vars`.
pub open spec fn collected_onto(
    path: Seq<u8>,
    items: Seq<ItemView>,
    vars: Map<Seq<char>, Seq<char>>,
) -> Result<Map<Seq<char>, Seq<char>>, Seq<char>>
    decreases items.len(),
{
    if items.len() == 0 {
        Ok(vars)
    } else {
        match items[0] {
            Err(failure) => Err(
                "cannot parse env-file "@ + paths::shown(path) + ": "@ + failure.1 + hint(
                    failure.0,
                ),
            ),
            Ok(pair) => if pair.1.contains('\0') {
                Err(
                    "env-file "@ + paths::shown(path) + ": the value of "@ + text::debug_str(pair.0)
                        + " contains a NUL byte"@,
                )
            } else if vars.contains_key(pair.0) {
                Err(
                    "env-file "@ + paths::shown(path) + ": "@ + text::debug_str(pair.0)
                        + " is declared more than once; keep a single line"@,
                )
            } else {
                collected_onto(path, items.skip(1), vars.insert(pair.0, pair.1))
            },
        }
    }
}

/// The variables that the steps declare, or the first thing wrong with them: a
/// failed line, a value that no process can be given, a name declared twice.
pub open spec fn collected(
    path: Seq<u8>,
    items: Seq<ItemView>,
) -> Result<Map<Seq<char>, Seq<char>>, Seq<char>> {
    collected_onto(path, items, Map::empty())
}

/// A result as plain values.
pub open spec fn outcome(r: Result<EnvMap, String>) -> Result<
    Map<Seq<char>, Seq<char>>,
    Seq<char>,
> {
    match r {
        Ok(vars) => Ok(vars@),
        Err(message) => Err(message@),
    }
}

fn has_nul(s: &str) -> (r: bool)
    ensures
        r == s@.contains('\0'),
{
    let chars = text::chars_of(s);
    for i in 0..chars.len()
        invariant
            chars@ == s@,
            forall|j: int| 0 <= j < i ==> s@[j] != '\0',
    {
        if chars[i] == '\0' {
            assert(s@[i as int] == '\0');
            return true;
        }
    }
    false
}

/// Gather the variables of one dotenv file.
///
/// A key declared twice is an error rather than a silent first-wins/last-wins
/// choice: in a single file that is always an editing accident.
pub fn collect(path: &FsPath, items: &Vec<Item>) -> (r: Result<EnvMap, String>)
    ensures
        outcome(r) == collected(path@, plains(items@)),
        r matches Ok(vars) ==> vars.wf(),
{
    let mut vars = EnvMap::new();
    let ghost all = plains(items@);
    assert(all.skip(0) =~= all);
    for i in 0..items.len()
        invariant
            vars.wf(),
            all == plains(items@),
            collected(path@, all) == collected_onto(path@, all.skip(i as int), vars@),
    {
        assert(all.skip(i as int)[0] == plain(items@[i as int]));
        assert(all.skip(i as int).skip(1) =~= all.skip(i + 1));
        match &items[i] {
            Err(failure) => {
                let mut out = "cannot parse env-file ".to_string();
                out.append(path.display().as_str());
                out.append(": ");
                out.append(failure.1.as_str());
                if failure.0 {
                    out.append(
                        " (a line must be KEY=VALUE, and a value containing spaces or '#' must be quoted: KEY=\"a value\")",
                    );
                }
                assert(out@ =~= "cannot parse env-file "@ + paths::shown(path@) + ": "@ + failure.1@
                    + hint(failure.0));
                return Err(out);
            },
            Ok(pair) => {
                // A NUL byte cannot be passed to a process, so catch it here: the
                // failure then names the file instead of surfacing later as a
                // spawn error.
                if has_nul(pair.1.as_str()) {
                    let mut out = "env-file ".to_string();
                    out.append(path.display().as_str());
                    out.append(": the value of ");
                    out.append(text::debug_of(pair.0.as_str()).as_str());
                    out.append(" contains a NUL byte");
                    return Err(out);
                }
                if vars.get(pair.0.as_str()).is_some() {
                    let mut out = "env-file ".to_string();
                    out.append(path.display().as_str());
                    out.append(": ");
                    out.append(text::debug_of(pair.0.as_str()).as_str());
                    out.append(" is declared more than once; keep a single line");
                    return Err(out);
                }
                vars.insert(pair.0.clone(), pair.1.clone());
            },
        }
    }
    assert(all.skip(all.len() as int) =~= Seq::empty());
    Ok(vars)
}

/// What an env-file that is read to `items` gives.
pub open spec fn sourced(
    path: Seq<u8>,
    source: EnvSource,
    items: Seq<ItemView>,
) -> Result<Map<Seq<char>, Seq<char>>, Seq<char>> {
    match source {
        EnvSource::Unopened(reason) => Err(
            "cannot read env-file "@ + paths::shown(path) + ": "@ + reason@,
        ),
        EnvSource::Broken(reason) => Err(
            "cannot parse env-file "@ + paths::shown(path) + ": "@ + reason@,
        ),
        EnvSource::Bytes(_) => collected(path, items),
    }
}

/// Can the file be read to these items? The names and the failures are those of
/// the file, the values those of the file under some answers of the environment;
/// without a `$` in it there is one way.
pub open spec fn reads_to(source: EnvSource, items: Seq<ItemView>) -> bool {
    &&& forall|i: int|
        0 <= i < items.len() ==> (#[trigger] items[i] matches Ok(pair) ==> env_name(pair.0))
    &&& match source {
        EnvSource::Bytes(bytes) => {
            &&& exists|found: Seq<Option<Seq<char>>>| items == #[trigger] dotenv_read(bytes@, found)
            &&& steps_of(items) == dotenv_steps(bytes@)
            &&& !bytes@.contains(36) ==> items == dotenv_items(bytes@)
        },
        _ => true,
    }
}

/// Read `KEY=VALUE` pairs from one dotenv file.
pub fn load(path: &FsPath, source: &EnvSource) -> (r: Result<EnvMap, String>)
    ensures
        exists|items: Seq<ItemView>| #[trigger]
            reads_to(*source, items) && outcome(r) == sourced(path@, *source, items),
        r matches Ok(vars) ==> vars.wf(),
        source is Unopened || source is Broken ==> outcome(r) == sourced(
            path@,
            *source,
            Seq::empty(),
        ),
        source matches EnvSource::Bytes(bytes) ==> !bytes@.contains(36) ==> outcome(r)
            == collected(path@, dotenv_items(bytes@)),
{
    match source {
        EnvSource::Unopened(reason) => {
            let mut out = "cannot read env-file ".to_string();
            out.append(path.display().as_str());
            out.append(": ");
            out.append(reason.as_str());
            proof {
                let none: Seq<ItemView> = Seq::empty();
                assert(reads_to(*source, none));
            }
            Err(out)
        },
        EnvSource::Broken(reason) => {
            let mut out = "cannot parse env-file ".to_string();
            out.append(path.display().as_str());
            out.append(": ");
            out.append(reason.as_str());
            proof {
                let none: Seq<ItemView> = Seq::empty();
                assert(reads_to(*source, none));
            }
            Err(out)
        },
        EnvSource::Bytes(bytes) => {
            let items = read_items(bytes.as_slice());
            proof {
                let steps = plains(items@);
                assert forall|i: int| 0 <= i < steps.len() implies (#[trigger] steps[i] matches Ok(
                    pair,
                ) ==> env_name(pair.0)) by {
                    assert(steps[i] == plain(items@[i]));
                }
                assert(reads_to(*source, steps));
            }
            collect(path, &items)
        },
    }
}

// ---------------------------------------------------------------------- laws
/// What the variables of a read file hold: each was declared by some line, under
/// a dotenv name, and no value holds a NUL.
pub proof fn law_collected_variables_come_from_the_file(
    path: Seq<u8>,
    items: Seq<ItemView>,
    name: Seq<char>,
)
    requires
        collected(path, items) matches Ok(vars) && vars.contains_key(name),
    ensures
        ({
            let value = collected(path, items)->Ok_0[name];
            items.contains(Ok((name, value))) && !value.contains('\0')
        }),
{
    lemma_collected_onto(path, items, Map::empty(), name);
}

proof fn lemma_collected_onto(
    path: Seq<u8>,
    items: Seq<ItemView>,
    vars: Map<Seq<char>, Seq<char>>,
    name: Seq<char>,
)
    requires
        collected_onto(path, items, vars) matches Ok(out) && out.contains_key(name),
    ensures
        ({
            let value = collected_onto(path, items, vars)->Ok_0[name];
            ||| vars.contains_key(name) && value == vars[name]
            ||| items.contains(Ok((name, value))) && !value.contains('\0')
        }),
    decreases items.len(),
{
    if items.len() > 0 {
        let pair = items[0]->Ok_0;
        let value = collected_onto(path, items, vars)->Ok_0[name];
        lemma_collected_onto(path, items.skip(1), vars.insert(pair.0, pair.1), name);
        if items.skip(1).contains(Ok((name, value))) {
            let i = choose|i: int| 0 <= i < items.skip(1).len() && items.skip(1)[i] == Ok::<
                (Seq<char>, Seq<char>),
                (bool, Seq<char>),
            >((name, value));
            assert(items[i + 1] == Ok::<(Seq<char>, Seq<char>), (bool, Seq<char>)>((name, value)));
        } else if name == pair.0 {
            assert(items[0] == Ok::<(Seq<char>, Seq<char>), (bool, Seq<char>)>((name, value)));
        }
    }
}

proof fn lemma_read_whole(
    path: Seq<u8>,
    items: Seq<ItemView>,
    vars: Map<Seq<char>, Seq<char>>,
    name: Seq<char>,
    i: int,
)
    requires
        collected_onto(path, items, vars) is Ok,
        vars.contains_key(name) || 0 <= i < items.len() && step_of(items[i]) == Ok::<
            Seq<char>,
            (bool, Seq<char>),
        >(name),
    ensures
        collected_onto(path, items, vars)->Ok_0.contains_key(name),
    decreases items.len(),
{
    if items.len() > 0 {
        let pair = items[0]->Ok_0;
        if i > 0 && i < items.len() {
            assert(items.skip(1)[i - 1] == items[i]);
        }
        lemma_read_whole(path, items.skip(1), vars.insert(pair.0, pair.1), name, i - 1);
    }
}

proof fn lemma_failures_stop(
    path: Seq<u8>,
    items: Seq<ItemView>,
    vars: Map<Seq<char>, Seq<char>>,
    i: int,
)
    requires
        0 <= i < items.len(),
        items[i] is Err,
    ensures
        collected_onto(path, items, vars) is Err,
    decreases items.len(),
{
    if i > 0 && collected_onto(path, items, vars) is Ok {
        let pair = items[0]->Ok_0;
        assert(items.skip(1)[i - 1] == items[i]);
        lemma_failures_stop(path, items.skip(1), vars.insert(pair.0, pair.1), i - 1);
    }
}

/// A line that fails stops the reading of an env-file, with or without
/// substitutions in it and whatever the environment holds.
pub proof fn law_a_broken_line_is_never_passed_over(
    path: Seq<u8>,
    source: EnvSource,
    items: Seq<ItemView>,
    i: int,
)
    requires
        reads_to(source, items),
        source matches EnvSource::Bytes(bytes) && 0 <= i < dotenv_steps(bytes@).len()
            && dotenv_steps(bytes@)[i] is Err,
    ensures
        sourced(path, source, items) is Err,
{
    assert(steps_of(items)[i] == step_of(items[i]));
    lemma_failures_stop(path, items, Map::empty(), i);
}

/// An env-file is read whole or not at all: the variables of one that is read
/// carry the names that the file declares, all of them and no others, whatever
/// the environment holds.
pub proof fn law_an_env_file_is_read_whole(
    path: Seq<u8>,
    source: EnvSource,
    items: Seq<ItemView>,
    name: Seq<char>,
)
    requires
        reads_to(source, items),
        source is Bytes,
        sourced(path, source, items) is Ok,
    ensures
        sourced(path, source, items)->Ok_0.contains_key(name) <==> dotenv_steps(
            source->Bytes_0@,
        ).contains(Ok(name)),
{
    let steps = steps_of(items);
    let declared = Ok::<Seq<char>, (bool, Seq<char>)>(name);
    if sourced(path, source, items)->Ok_0.contains_key(name) {
        law_collected_variables_come_from_the_file(path, items, name);
        let value = collected(path, items)->Ok_0[name];
        let i = items.index_of(Ok((name, value)));
        assert(steps[i] == declared);
    }
    if steps.contains(declared) {
        let i = steps.index_of(declared);
        assert(steps[i] == step_of(items[i]));
        lemma_read_whole(path, items, Map::empty(), name, i);
    }
}

/// An env-file that declares a name twice is refused, whatever the environment
/// holds.
pub proof fn law_env_files_declare_a_name_once(
    path: Seq<u8>,
    source: EnvSource,
    items: Seq<ItemView>,
    i: int,
    j: int,
)
    requires
        reads_to(source, items),
        source is Bytes,
        0 <= i < j < dotenv_steps(source->Bytes_0@).len(),
        dotenv_steps(source->Bytes_0@)[i] is Ok,
        dotenv_steps(source->Bytes_0@)[i] == dotenv_steps(source->Bytes_0@)[j],
    ensures
        sourced(path, source, items) is Err,
{
    assert(steps_of(items)[i] == step_of(items[i]));
    assert(steps_of(items)[j] == step_of(items[j]));
    law_a_name_declared_twice_is_refused(path, items, i, j);
}

/// A file that declares a name twice is refused, wherever the two lines stand.
pub proof fn law_a_name_declared_twice_is_refused(
    path: Seq<u8>,
    items: Seq<ItemView>,
    i: int,
    j: int,
)
    requires
        0 <= i < j < items.len(),
        items[i] matches Ok(first) && items[j] matches Ok(second) && first.0 == second.0,
    ensures
        collected(path, items) is Err,
{
    lemma_twice(path, items, Map::empty(), i, j);
}

proof fn lemma_twice(
    path: Seq<u8>,
    items: Seq<ItemView>,
    vars: Map<Seq<char>, Seq<char>>,
    i: int,
    j: int,
)
    requires
        i < j < items.len(),
        items[j] is Ok,
        0 <= j,
        i < 0 ==> vars.contains_key(items[j]->Ok_0.0),
        i >= 0 ==> items[i] is Ok && items[i]->Ok_0.0 == items[j]->Ok_0.0,
    ensures
        collected_onto(path, items, vars) is Err,
    decreases items.len(),
{
    if j > 0 && collected_onto(path, items, vars) is Ok {
        let pair = items[0]->Ok_0;
        assert(items.skip(1)[j - 1] == items[j]);
        if i > 0 {
            assert(items.skip(1)[i - 1] == items[i]);
        }
        lemma_twice(
            path,
            items.skip(1),
            vars.insert(pair.0, pair.1),
            if i > 0 {
                i - 1
            } else {
                -1
            },
            j - 1,
        );
    }
}

} // verus!
