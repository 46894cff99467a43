//! What holds of every menu.

use vstd::prelude::*;
use crate::control::{entry_ids, resolved, ControlSurfaceView, Request, ResponseView};
use crate::coordinator::model::{step, ActionView, CoordinatorView, EventView, FatalView};
use crate::text::{decimal_text, lemma_decimal_text_is_injective};

verus! {

/// The part of the menu in which the entry at `i` stands: 0 for the presets,
/// 1 for the devices, then one number each for the playback switch, the
/// login switch and the exit.
spec fn part(surface: ControlSurfaceView, i: int) -> int {
    let presets = surface.presets.len();
    let devices = surface.devices.len();
    if i < presets {
        0
    } else if i < presets + devices {
        1
    } else if i == presets + devices {
        2
    } else if surface.autostart_label.is_some() && i == presets + devices + 1 {
        3
    } else {
        4
    }
}

/// The character with which the identifiers of a part begin.
spec fn head(part: int) -> char {
    if part == 0 {
        'p'
    } else if part == 1 {
        'd'
    } else if part == 2 {
        't'
    } else if part == 3 {
        'a'
    } else {
        'e'
    }
}

/// The number that the identifier of the entry at `i` ends with, for the
/// parts whose entries are numbered.
spec fn number(surface: ControlSurfaceView, i: int) -> nat {
    if i < surface.presets.len() {
        i as nat
    } else {
        (i - surface.presets.len()) as nat
    }
}

/// The identifier of an entry begins with the character of its part, and in
/// the numbered parts it is seven characters followed by the entry's number.
proof fn lemma_identifier_shape(surface: ControlSurfaceView, i: int)
    requires
        0 <= i < surface.menu().len(),
    ensures
        surface.menu()[i].id.len() > 0,
        surface.menu()[i].id[0] == head(part(surface, i)),
        part(surface, i) <= 1 ==> surface.menu()[i].id.len() >= 7 && surface.menu()[i].id.subrange(
            7,
            surface.menu()[i].id.len() as int,
        ) == decimal_text(number(surface, i)),
{
    reveal_strlit("preset_");
    reveal_strlit("device_");
    reveal_strlit("toggle_enabled");
    reveal_strlit("autostart_toggle");
    reveal_strlit("exit");
    let id = surface.menu()[i].id;
    if part(surface, i) == 0 {
        assert(id == "preset_"@ + decimal_text(i as nat));
        assert(id.subrange(7, id.len() as int) =~= decimal_text(i as nat));
    } else if part(surface, i) == 1 {
        let k = i - surface.presets.len();
        assert(id == "device_"@ + decimal_text(k as nat));
        assert(id.subrange(7, id.len() as int) =~= decimal_text(k as nat));
    } else if part(surface, i) == 2 {
        assert(id == "toggle_enabled"@);
    } else if part(surface, i) == 3 {
        assert(id == "autostart_toggle"@);
    } else {
        assert(id == "exit"@);
    }
}

/// No two entries of a menu share an identifier.
pub proof fn law_menu_identifiers_are_distinct(surface: ControlSurfaceView, i: int, j: int)
    requires
        0 <= i < surface.menu().len(),
        0 <= j < surface.menu().len(),
        i != j,
    ensures
        surface.menu()[i].id != surface.menu()[j].id,
{
    lemma_identifier_shape(surface, i);
    lemma_identifier_shape(surface, j);
    if part(surface, i) == part(surface, j) && surface.menu()[i].id == surface.menu()[j].id {
        lemma_decimal_text_is_injective(number(surface, i), number(surface, j));
    }
}

/// A click is understood as what the clicked entry stands for: the
/// identifier of each entry of a menu resolves to the request of that entry.
pub proof fn law_every_entry_resolves_to_its_request(surface: ControlSurfaceView, i: int)
    requires
        0 <= i < surface.menu().len(),
    ensures
        resolved(surface.menu(), surface.menu()[i].id) == Some(surface.menu()[i].request),
{
    let menu = surface.menu();
    let ids = entry_ids(menu);
    assert(ids[i] == menu[i].id);
    ids.index_of_first_ensures(menu[i].id);
    let found = ids.index_of_first(menu[i].id).unwrap();
    if found != i {
        assert(ids[found] == menu[found].id);
        law_menu_identifiers_are_distinct(surface, found, i);
    }
}

/// A selection shows in the menu: after the preset or the device at `i` was
/// selected, its entry carries the check mark.
pub proof fn law_selection_is_checked<E>(surface: ControlSurfaceView, i: usize)
    ensures
        i < surface.presets.len() ==> surface.respond::<E>(Request::SelectPreset(i)).0.preset_entry(
            i as int,
        ).checked == Some(true),
        i < surface.devices.len() ==> surface.respond::<E>(Request::SelectDevice(i)).0.device_entry(
            i as int,
        ).checked == Some(true),
{
}

/// The menu only asks for presets that exist. As long as the selected preset
/// is in the catalogue, it stays there whatever is requested, and no command
/// that the control surface sends makes a coordinator over the same catalogue
/// give up for an unknown preset.
pub proof fn law_requests_name_known_presets<E>(
    surface: ControlSurfaceView,
    request: Request,
    coordinator: CoordinatorView,
)
    requires
        surface.presets.contains(surface.state.current_preset_name),
        coordinator.presets == surface.presets,
    ensures
        ({
            let (next, response) = surface.respond::<E>(request);
            &&& next.presets == surface.presets
            &&& next.presets.contains(next.state.current_preset_name)
            &&& response matches ResponseView::Send(command) ==> !(step(
                coordinator,
                EventView::Received(command),
            ).1 matches ActionView::Abort(FatalView::UnknownPreset(_)))
        }),
{
    let (next, response) = surface.respond::<E>(request);
    match request {
        Request::SelectPreset(i) => {
            if i < surface.presets.len() {
                assert(surface.presets[i as int] == next.state.current_preset_name);
            }
        },
        _ => {},
    }
    coordinator.presets.index_of_first_ensures(next.state.current_preset_name);
}

} // verus!
