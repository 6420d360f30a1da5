//! Subcommand decisions and the output conventions they share.

use vstd::prelude::*;
use vstd::string::*;
use vstd::utf8::*;

use crate::config;
use crate::config::{Config, Service};
use crate::logstore;
use crate::text;

pub mod guide;
pub mod init;
pub mod init_laws;
pub mod label_laws;
pub mod logs;
pub mod ps;
pub mod ps_laws;
pub mod skills;
pub mod skills_laws;
pub mod start;
pub mod start_laws;
pub mod stop;
pub mod stop_laws;

verus! {

/// Log routing for the current invocation.
///
/// A single-service invocation is a pure pass-through (no prefix), while a
/// multi-service invocation labels every line so the merged view stays
/// readable. stdout and stderr share the label: the streams themselves stay
/// separate, so the reader does not need a textual marker for stderr.
#[derive(Clone, Debug)]
pub struct Prefix {
    /// `"backend  | "` in a multi-service invocation (the name padded to the
    /// longest one), `""` when a single service is a pure pass-through.
    pub label: String,
}

/// The label of a service's lines.
pub open spec fn label(name: Seq<char>, width: Option<usize>) -> Seq<char> {
    match width {
        Some(width) => text::padded(name, width as int) + " | "@,
        None => Seq::empty(),
    }
}

impl Prefix {
    pub fn plain() -> (out: Prefix)
        ensures
            out.label@ == Seq::<char>::empty(),
    {
        let label = String::new();
        assert(label@ =~= Seq::<char>::empty());
        Prefix { label }
    }

    /// `width` comes from [`prefix_width`].
    pub fn service(name: &str, width: Option<usize>) -> (out: Prefix)
        ensures
            out.label@ == label(name@, width),
    {
        match width {
            Some(width) => {
                let mut out = String::new();
                text::push_padded(&mut out, name, width);
                out.append(" | ");
                assert(out@ =~= label(name@, Some(width)));
                Prefix { label: out }
            },
            None => Prefix::plain(),
        }
    }

    /// One of agproc's own `===== ... =====` lines, for our stdout.
    pub fn marker(&self, text: &str) -> (out: Vec<u8>)
        ensures
            out@ == logstore::printed(
                self.label@,
                encode_utf8(logstore::marker_text(text@)),
            ),
    {
        let line = marker_text(text);
        logstore::emit(self.label.as_str(), line.as_str().as_bytes())
    }

    /// Free-form diagnostic line, for our stderr.
    pub fn diagnostic(&self, text: &str) -> (out: Vec<u8>)
        ensures
            out@ == logstore::printed(self.label@, encode_utf8(text@)),
    {
        logstore::emit(self.label.as_str(), text.as_bytes())
    }
}

/// The length of the longest name.
pub open spec fn widest(names: Seq<Seq<char>>) -> nat
    decreases names.len(),
{
    if names.len() == 0 {
        0
    } else if names.last().len() > widest(names.drop_last()) {
        names.last().len()
    } else {
        widest(names.drop_last())
    }
}

/// The service-name column width of a multi-service invocation: every name is
/// padded to the longest one so the `|` columns line up. `None` means "one
/// service only", which is a pure pass-through with no prefix at all.
pub fn prefix_width(names: &Vec<String>) -> (r: Option<usize>)
    ensures
        match r {
            Some(width) => names@.len() > 1 && width == widest(text::texts(names@)),
            None => names@.len() <= 1,
        },
{
    let mut width: usize = 0;
    let ghost all = text::texts(names@);
    for i in 0..names.len()
        invariant
            all == text::texts(names@),
            width == widest(all.take(i as int)),
    {
        let chars = text::chars_of(names[i].as_str());
        proof {
            assert(all.take(i + 1).drop_last() =~= all.take(i as int));
            assert(all.take(i + 1).last() == names@[i as int]@);
        }
        if chars.len() > width {
            width = chars.len();
        }
    }
    assert(all.take(all.len() as int) =~= all);
    if names.len() > 1 {
        Some(width)
    } else {
        None
    }
}

pub fn marker_text(text: &str) -> (out: String)
    ensures
        out@ == logstore::marker_text(text@),
{
    let mut out = "===== ".to_string();
    out.append(text);
    out.append(" =====");
    out
}

/// `agproc` does not know a service.
pub open spec fn unknown_service(name: Seq<char>, services: Seq<Service>) -> Seq<char> {
    "unknown service \""@ + name + "\"; known services: "@ + text::joined(
        config::names(services),
        ", "@,
    )
}

/// The services that the names ask for, after those already picked.
pub open spec fn selection_onto(
    services: Seq<Service>,
    requested: Seq<Seq<char>>,
    picked: Seq<int>,
) -> Result<Seq<int>, Seq<char>>
    decreases requested.len(),
{
    if requested.len() == 0 {
        Ok(picked)
    } else {
        match config::service_index(services, requested[0]) {
            Some(i) => selection_onto(
                services,
                requested.skip(1),
                if picked.contains(i) {
                    picked
                } else {
                    picked.push(i)
                },
            ),
            None => Err(unknown_service(requested[0], services)),
        }
    }
}

/// The services named on the command line, each once and in the order in which
/// they were first asked for; none named means all of them.
pub open spec fn selection(services: Seq<Service>, requested: Seq<Seq<char>>) -> Result<
    Seq<int>,
    Seq<char>,
> {
    if requested.len() == 0 {
        Ok(Seq::new(services.len(), |i: int| i))
    } else {
        selection_onto(services, requested, Seq::empty())
    }
}

/// Are the values those at the indices?
pub open spec fn are_at(list: Seq<usize>, picked: Seq<int>) -> bool {
    list.len() == picked.len() && forall|k: int|
        0 <= k < list.len() ==> #[trigger] list[k] == picked[k]
}

/// Resolve the services named on the command line (empty means "all"), by where
/// the configuration declares them.
pub fn select_services(config: &Config, requested: &Vec<String>) -> (r: Result<
    Vec<usize>,
    String,
>)
    ensures
        match selection(config.services@, text::texts(requested@)) {
            Ok(picked) => r matches Ok(list) && are_at(list@, picked),
            Err(message) => r matches Err(text) && text@ == message,
        },
        r matches Ok(list) ==> forall|k: int|
            0 <= k < list@.len() ==> #[trigger] list@[k] < config.services@.len(),
{
    let ghost services = config.services@;
    let ghost names = text::texts(requested@);
    let mut list: Vec<usize> = Vec::new();
    if requested.len() == 0 {
        for i in 0..config.services.len()
            invariant
                list@.len() == i,
                forall|k: int| 0 <= k < i ==> #[trigger] list@[k] == k,
        {
            list.push(i);
        }
        return Ok(list);
    }
    let ghost mut picked: Seq<int> = Seq::empty();
    assert(names.skip(0) =~= names);
    for i in 0..requested.len()
        invariant
            services == config.services@,
            names == text::texts(requested@),
            names.len() > 0,
            are_at(list@, picked),
            forall|k: int| 0 <= k < list@.len() ==> #[trigger] list@[k] < services.len(),
            selection_onto(services, names, Seq::empty()) == selection_onto(
                services,
                names.skip(i as int),
                picked,
            ),
    {
        let name = requested[i].as_str();
        proof {
            assert(names.skip(i as int)[0] == name@);
            assert(names.skip(i as int).skip(1) =~= names.skip(i + 1));
        }
        match config.position(name) {
            Some(at) => {
                let mut seen = false;
                for k in 0..list.len()
                    invariant
                        are_at(list@, picked),
                        seen <==> exists|m: int| 0 <= m < k && #[trigger] picked[m] == at,
                {
                    if list[k] == at {
                        assert(picked[k as int] == at);
                        seen = true;
                    }
                }
                assert(seen <==> picked.contains(at as int));
                if !seen {
                    list.push(at);
                    proof {
                        picked = picked.push(at as int);
                    }
                }
            },
            None => {
                let mut out = "unknown service \"".to_string();
                out.append(name);
                out.append("\"; known services: ");
                out.append(text::join(&config.service_names(), ", ").as_str());
                return Err(out);
            },
        }
    }
    assert(names.skip(names.len() as int) =~= Seq::empty());
    Ok(list)
}

// ---------------------------------------------------------------------- laws
proof fn lemma_widest(names: Seq<Seq<char>>, i: int)
    requires
        0 <= i < names.len(),
    ensures
        names[i].len() <= widest(names),
    decreases names.len(),
{
    if i < names.len() - 1 {
        assert(names.drop_last()[i] == names[i]);
        lemma_widest(names.drop_last(), i);
    }
}

/// In one invocation all labels are equally long, so the columns line up.
pub proof fn law_labels_line_up(names: Seq<Seq<char>>, width: usize, i: int, j: int)
    requires
        width == widest(names),
        0 <= i < names.len(),
        0 <= j < names.len(),
    ensures
        label(names[i], Some(width)).len() == label(names[j], Some(width)).len(),
{
    lemma_widest(names, i);
    lemma_widest(names, j);
}

proof fn lemma_selection(services: Seq<Service>, requested: Seq<Seq<char>>, picked: Seq<int>)
    requires
        selection_onto(services, requested, picked) is Ok,
        picked.no_duplicates(),
        forall|k: int| 0 <= k < picked.len() ==> 0 <= #[trigger] picked[k] < services.len(),
    ensures
        ({
            let all = selection_onto(services, requested, picked)->Ok_0;
            &&& all.no_duplicates()
            &&& picked.len() <= all.len() && all.take(picked.len() as int) == picked
            &&& forall|k: int| 0 <= k < all.len() ==> 0 <= #[trigger] all[k] < services.len()
            &&& forall|k: int|
                picked.len() <= k < all.len() ==> requested.contains(
                    services[#[trigger] all[k]].name@,
                )
            &&& forall|r: int|
                #![trigger requested[r]]
                0 <= r < requested.len() ==> config::service_index(services, requested[r]) is Some
                    && all.contains(config::service_index(services, requested[r])->Some_0)
        }),
    decreases requested.len(),
{
    let all = selection_onto(services, requested, picked)->Ok_0;
    if requested.len() == 0 {
        assert(all.take(picked.len() as int) =~= picked);
    } else {
        let i = config::service_index(services, requested[0])->Some_0;
        config::lemma_service_index(services, requested[0]);
        let more = if picked.contains(i) {
            picked
        } else {
            picked.push(i)
        };
        let rest = requested.skip(1);
        lemma_selection(services, rest, more);
        assert(all.take(picked.len() as int) =~= all.take(more.len() as int).take(
            picked.len() as int,
        ));
        assert(more.take(picked.len() as int) =~= picked);
        assert forall|k: int| picked.len() <= k < all.len() implies requested.contains(
            services[#[trigger] all[k]].name@,
        ) by {
            if k < more.len() {
                assert(all.take(more.len() as int)[k] == more[k]);
                assert(requested[0] == services[all[k]].name@);
            } else {
                let r = choose|r: int| 0 <= r < rest.len() && rest[r] == services[all[k]].name@;
                assert(requested[r + 1] == services[all[k]].name@);
            }
        }
        assert forall|r: int|
            #![trigger requested[r]]
            0 <= r < requested.len() implies config::service_index(services, requested[r]) is Some
            && all.contains(config::service_index(services, requested[r])->Some_0) by {
            if r == 0 {
                assert(more.contains(i)) by {
                    if !picked.contains(i) {
                        assert(more[picked.len() as int] == i);
                    }
                }
                let k = choose|k: int| 0 <= k < more.len() && more[k] == i;
                assert(all.take(more.len() as int)[k] == i);
                assert(all[k] == i);
            } else {
                assert(rest[r - 1] == requested[r]);
            }
        }
    }
}

/// A selection holds every service that was asked for, once, and no other; none
/// asked for means every service.
pub proof fn law_selection_is_what_was_asked_for(
    services: Seq<Service>,
    requested: Seq<Seq<char>>,
)
    requires
        selection(services, requested) is Ok,
    ensures
        ({
            let all = selection(services, requested)->Ok_0;
            &&& all.no_duplicates()
            &&& forall|k: int| 0 <= k < all.len() ==> 0 <= #[trigger] all[k] < services.len()
            &&& requested.len() == 0 ==> all.len() == services.len()
            &&& requested.len() > 0 ==> forall|k: int|
                0 <= k < all.len() ==> requested.contains(services[#[trigger] all[k]].name@)
            &&& forall|r: int|
                #![trigger requested[r]]
                0 <= r < requested.len() ==> config::service_index(services, requested[r]) is Some
                    && all.contains(config::service_index(services, requested[r])->Some_0)
        }),
{
    if requested.len() > 0 {
        lemma_selection(services, requested, Seq::empty());
    }
}

/// Is the service at `at` asked for before position `r`?
pub open spec fn asked_before(
    services: Seq<Service>,
    requested: Seq<Seq<char>>,
    at: int,
    r: int,
) -> bool {
    exists|q: int|
        0 <= q < r && config::service_index(services, #[trigger] requested[q]) == Some(at)
}

proof fn lemma_selection_order(
    services: Seq<Service>,
    requested: Seq<Seq<char>>,
    picked: Seq<int>,
    k: int,
    l: int,
    r: int,
)
    requires
        selection_onto(services, requested, picked) is Ok,
        picked.no_duplicates(),
        forall|n: int| 0 <= n < picked.len() ==> 0 <= #[trigger] picked[n] < services.len(),
        0 <= k < l < selection_onto(services, requested, picked)->Ok_0.len(),
        picked.len() <= l,
        0 <= r < requested.len(),
        config::service_index(services, requested[r]) == Some(
            selection_onto(services, requested, picked)->Ok_0[l],
        ),
    ensures
        k < picked.len() || asked_before(
            services,
            requested,
            selection_onto(services, requested, picked)->Ok_0[k],
            r,
        ),
    decreases requested.len(),
{
    let all = selection_onto(services, requested, picked)->Ok_0;
    let i = config::service_index(services, requested[0])->Some_0;
    config::lemma_service_index(services, requested[0]);
    let more = if picked.contains(i) {
        picked
    } else {
        picked.push(i)
    };
    let rest = requested.skip(1);
    lemma_selection(services, rest, more);
    assert(all.take(more.len() as int) == more);
    assert(more.contains(i)) by {
        if !picked.contains(i) {
            assert(more[picked.len() as int] == i);
        }
    }
    let place = choose|n: int| 0 <= n < more.len() && more[n] == i;
    assert(all.take(more.len() as int)[place] == i);
    assert(all[place] == i);
    if l >= more.len() {
        assert(r > 0) by {
            if r == 0 {
                assert(all[l] == all[place]);
            }
        }
        assert(rest[r - 1] == requested[r]);
        lemma_selection_order(services, rest, more, k, l, r - 1);
        if k >= more.len() {
            let q = choose|q: int|
                0 <= q < r - 1 && config::service_index(services, #[trigger] rest[q]) == Some(
                    all[k],
                );
            assert(requested[q + 1] == rest[q]);
        } else if k >= picked.len() {
            assert(all.take(more.len() as int)[k] == more[k]);
            assert(config::service_index(services, requested[0]) == Some(all[k]));
        }
    }
}

/// A selection keeps the order in which services were first asked for: nothing
/// asked for leads to a later service before it leads to an earlier one.
pub proof fn law_selection_keeps_the_order_asked_for(
    services: Seq<Service>,
    requested: Seq<Seq<char>>,
    k: int,
    l: int,
    r: int,
)
    requires
        selection(services, requested) is Ok,
        0 <= k < l < selection(services, requested)->Ok_0.len(),
        0 <= r < requested.len(),
        config::service_index(services, requested[r]) == Some(
            selection(services, requested)->Ok_0[l],
        ),
    ensures
        asked_before(services, requested, selection(services, requested)->Ok_0[k], r),
{
    lemma_selection_order(services, requested, Seq::empty(), k, l, r);
}

/// A selection fails exactly when a service is asked for that is not declared.
pub proof fn law_unknown_services_are_refused(services: Seq<Service>, requested: Seq<Seq<char>>)
    ensures
        selection(services, requested) is Err <==> exists|r: int|
            0 <= r < requested.len() && config::service_index(
                services,
                #[trigger] requested[r],
            ) is None,
{
    if requested.len() > 0 {
        lemma_unknown(services, requested, Seq::empty());
    }
}

proof fn lemma_unknown(services: Seq<Service>, requested: Seq<Seq<char>>, picked: Seq<int>)
    ensures
        selection_onto(services, requested, picked) is Err <==> exists|r: int|
            0 <= r < requested.len() && config::service_index(
                services,
                #[trigger] requested[r],
            ) is None,
    decreases requested.len(),
{
    if requested.len() > 0 {
        let rest = requested.skip(1);
        match config::service_index(services, requested[0]) {
            Some(i) => {
                let more = if picked.contains(i) {
                    picked
                } else {
                    picked.push(i)
                };
                lemma_unknown(services, rest, more);
                if exists|r: int|
                    0 <= r < rest.len() && config::service_index(
                        services,
                        #[trigger] rest[r],
                    ) is None {
                    let r = choose|r: int|
                        0 <= r < rest.len() && config::service_index(
                            services,
                            #[trigger] rest[r],
                        ) is None;
                    assert(requested[r + 1] == rest[r]);
                }
                if exists|r: int|
                    0 <= r < requested.len() && config::service_index(
                        services,
                        #[trigger] requested[r],
                    ) is None {
                    let r = choose|r: int|
                        0 <= r < requested.len() && config::service_index(
                            services,
                            #[trigger] requested[r],
                        ) is None;
                    assert(rest[r - 1] == requested[r]);
                }
            },
            None => {
                assert(config::service_index(services, requested[0]) is None);
            },
        }
    }
}

} // verus!
