use kilonova::models::jet_in_star::{Placement, Zone};

fn place(in_nozzle: bool, behind_jet_head: bool, inside_core: bool, inside_envelope: bool) -> Placement {
    Placement { in_nozzle, behind_jet_head, inside_core, inside_envelope }
}

#[test]
fn jet_takes_precedence_over_star() {
    assert_eq!(Zone::from_placement(&place(true, true, true, false)), Zone::Jet);
    assert_eq!(Zone::from_placement(&place(true, true, false, true)), Zone::Jet);
    assert_eq!(Zone::from_placement(&place(true, true, false, false)), Zone::Jet);
}

#[test]
fn outside_nozzle_or_ahead_of_head_is_not_jet() {
    assert_eq!(Zone::from_placement(&place(false, true, true, false)), Zone::Core);
    assert_eq!(Zone::from_placement(&place(true, false, true, false)), Zone::Core);
}

#[test]
fn envelope_and_wind() {
    assert_eq!(Zone::from_placement(&place(false, false, false, true)), Zone::Envelope);
    assert_eq!(Zone::from_placement(&place(true, false, false, true)), Zone::Envelope);
    assert_eq!(Zone::from_placement(&place(false, false, false, false)), Zone::Wind);
    assert_eq!(Zone::from_placement(&place(false, true, false, false)), Zone::Wind);
}

#[test]
fn only_jet_moves_with_engine() {
    assert!(Zone::Jet.moves_with_engine());
    assert!(!Zone::Core.moves_with_engine());
    assert!(!Zone::Envelope.moves_with_engine());
    assert!(!Zone::Wind.moves_with_engine());
}
