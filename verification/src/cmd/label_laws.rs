//! What holds of how lines are labelled and of which services are meant.

use vstd::prelude::*;
use vstd::string::*;

use crate::cmd;
use crate::config;
use crate::config::Service;
use crate::text;

verus! {

/// With a width a label is the name, the spaces that are missing, and a bar; without
/// one there is no label.
pub proof fn law_labels_name_the_service(name: Seq<char>, width: usize, i: int)
    requires
        name.len() <= width,
    ensures
        ({
            let label = cmd::label(name, Some(width));
            &&& label.len() == width + " | "@.len()
            &&& label.take(name.len() as int) == name
            &&& name.len() <= i < width ==> label[i] == ' '
            &&& label.skip(width as int) == " | "@
        }),
        cmd::label(name, None).len() == 0,
{
    let label = cmd::label(name, Some(width));
    assert(label.take(name.len() as int) =~= name);
    assert(label.skip(width as int) =~= " | "@);
}

/// The widest of some names is one of them, and none is wider.
pub proof fn law_the_widest_name_decides(names: Seq<Seq<char>>, i: int)
    ensures
        0 <= i < names.len() ==> names[i].len() <= cmd::widest(names),
        names.len() > 0 ==> exists|k: int|
            0 <= k < names.len() && (#[trigger] names[k]).len() == cmd::widest(names),
        names.len() == 0 ==> cmd::widest(names) == 0,
    decreases names.len(),
{
    if names.len() > 0 {
        let front = names.drop_last();
        let last = names.len() - 1;
        law_the_widest_name_decides(front, i);
        assert(0 <= i < front.len() ==> front[i] == names[i]);
        if cmd::widest(names) == names[last].len() {
            assert(names[last].len() == cmd::widest(names));
        } else {
            let k = choose|k: int|
                0 <= k < front.len() && (#[trigger] front[k]).len() == cmd::widest(front);
            assert(names[k] == front[k]);
        }
    }
}

/// Where none is asked for all services are meant, in the order in which they are
/// declared.
pub proof fn law_asking_for_none_means_all(services: Seq<Service>, i: int)
    ensures
        cmd::selection(services, Seq::empty()) matches Ok(picked) && picked.len() == services.len()
            && (0 <= i < services.len() ==> picked[i] == i),
{
}

/// A name that no service has is told with those that there are, joined by commas.
pub proof fn law_unknown_services_are_told_with_the_known_ones(
    services: Seq<Service>,
    name: Seq<char>,
)
    requires
        forall|j: int| 0 <= j < services.len() ==> (#[trigger] services[j]).name@ != name,
    ensures
        cmd::selection(services, seq![name]) == Err::<Seq<int>, Seq<char>>(
            "unknown service \""@ + name + "\"; known services: "@ + text::joined(
                config::names(services),
                ", "@,
            ),
        ),
{
    config::lemma_service_index(services, name);
    assert(seq![name][0] == name);
}

/// A single service that is asked for by its name is the one that is meant.
pub proof fn law_a_service_is_asked_for_by_name(services: Seq<Service>, i: int)
    requires
        0 <= i < services.len(),
        forall|j: int| 0 <= j < i ==> (#[trigger] services[j]).name@ != services[i].name@,
    ensures
        cmd::selection(services, seq![services[i].name@]) == Ok::<Seq<int>, Seq<char>>(seq![i]),
{
    let name = services[i].name@;
    config::lemma_service_index(services, name);
    let asked = seq![name];
    assert(asked[0] == name);
    assert(asked.skip(1) =~= Seq::empty());
    let picked = Seq::<int>::empty().push(i);
    assert(cmd::selection_onto(services, asked.skip(1), picked) == Ok::<Seq<int>, Seq<char>>(
        picked,
    ));
    assert(picked =~= seq![i]);
    assert(!Seq::<int>::empty().contains(i));
}

/// The places that were picked are handed out one by one.
pub proof fn law_picked_places_are_handed_out_in_order(list: Seq<usize>, picked: Seq<int>, k: int)
    ensures
        cmd::are_at(list, picked) ==> list.len() == picked.len() && (0 <= k < list.len() ==> list[k]
            == picked[k]),
{
}

} // verus!
