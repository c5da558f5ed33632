use pool_server::balls::{
    count_pocketed, fresh_rack, is_group_cleared, is_legal_transition, is_well_formed_rack, Ball,
    Group, BALL_COUNT, CUE_BALL, EIGHT_BALL, GROUP_SIZE,
};

fn balls_rack_without(off: &[u8]) -> Vec<Ball> {
    (0u8..16).map(|id| Ball { id, in_play: !off.contains(&id) }).collect()
}

#[test]
fn constants_describe_the_table() {
    assert_eq!(BALL_COUNT, 16);
    assert_eq!(CUE_BALL, 0);
    assert_eq!(EIGHT_BALL, 8);
    assert_eq!(GROUP_SIZE, 7);
}

#[test]
fn fresh_rack_has_sixteen_balls_in_play() {
    let rack = fresh_rack();
    assert_eq!(rack.len(), 16);
    for (i, ball) in rack.iter().enumerate() {
        assert_eq!(ball.id as usize, i);
        assert!(ball.in_play);
    }
    assert!(is_well_formed_rack(&rack));
}

#[test]
fn group_ranges_and_complements() {
    assert_eq!(Group::Solids.id_range(), (1, 8));
    assert_eq!(Group::Stripes.id_range(), (9, 16));
    assert_eq!(Group::Undetermined.id_range(), (0, 0));
    assert_eq!(Group::Solids.complement(), Group::Stripes);
    assert_eq!(Group::Stripes.complement(), Group::Solids);
    assert_eq!(Group::Undetermined.complement(), Group::Undetermined);
}

#[test]
fn rack_with_wrong_count_is_malformed() {
    let mut rack = fresh_rack();
    rack.pop();
    assert!(!is_well_formed_rack(&rack));
    let mut rack = fresh_rack();
    rack.push(Ball { id: 16, in_play: true });
    assert!(!is_well_formed_rack(&rack));
    assert!(!is_well_formed_rack(&Vec::new()));
}

#[test]
fn rack_with_wrong_ids_is_malformed() {
    let mut rack = fresh_rack();
    rack[5] = Ball { id: 6, in_play: true };
    assert!(!is_well_formed_rack(&rack));
    let mut rack = fresh_rack();
    rack[15] = Ball { id: 200, in_play: false };
    assert!(!is_well_formed_rack(&rack));
    let mut rack = fresh_rack();
    rack.swap(1, 2);
    assert!(!is_well_formed_rack(&rack));
}

#[test]
fn pocketed_rack_is_well_formed() {
    assert!(is_well_formed_rack(&balls_rack_without(&[0, 3, 8, 15])));
}

#[test]
fn balls_may_leave_but_not_return() {
    let full = fresh_rack();
    let fewer = balls_rack_without(&[3, 9]);
    assert!(is_legal_transition(&full, &fewer));
    assert!(is_legal_transition(&fewer, &fewer));
    assert!(!is_legal_transition(&fewer, &full));
    assert!(!is_legal_transition(&fewer, &balls_rack_without(&[3])));
    assert!(is_legal_transition(&fewer, &balls_rack_without(&[3, 9, 15])));
}

#[test]
fn cue_ball_may_return() {
    let scratched = balls_rack_without(&[0, 4]);
    let replaced = balls_rack_without(&[4]);
    assert!(is_legal_transition(&scratched, &replaced));
}

#[test]
fn eight_ball_may_not_return() {
    let before = balls_rack_without(&[8]);
    assert!(!is_legal_transition(&before, &fresh_rack()));
}

#[test]
fn transition_to_short_rack_is_illegal() {
    let full = fresh_rack();
    let mut short = fresh_rack();
    short.truncate(15);
    assert!(!is_legal_transition(&full, &short));
}

#[test]
fn count_pocketed_counts_only_the_group() {
    let before = balls_rack_without(&[2]);
    let after = balls_rack_without(&[0, 1, 2, 3, 8, 9, 10, 11]);
    assert_eq!(count_pocketed(&before, &after, Group::Solids), 2);
    assert_eq!(count_pocketed(&before, &after, Group::Stripes), 3);
    assert_eq!(count_pocketed(&before, &after, Group::Undetermined), 0);
    assert_eq!(count_pocketed(&after, &after, Group::Solids), 0);
}

#[test]
fn count_pocketed_of_whole_group_is_seven() {
    let after = balls_rack_without(&[1, 2, 3, 4, 5, 6, 7]);
    assert_eq!(count_pocketed(&fresh_rack(), &after, Group::Solids), 7);
    let after = balls_rack_without(&[9, 10, 11, 12, 13, 14, 15]);
    assert_eq!(count_pocketed(&fresh_rack(), &after, Group::Stripes), 7);
}

#[test]
fn group_cleared_needs_all_seven_off() {
    let solids_off = balls_rack_without(&[1, 2, 3, 4, 5, 6, 7]);
    assert!(is_group_cleared(&solids_off, Group::Solids));
    assert!(!is_group_cleared(&solids_off, Group::Stripes));
    assert!(!is_group_cleared(&balls_rack_without(&[1, 2, 3, 4, 5, 6]), Group::Solids));
    assert!(!is_group_cleared(&balls_rack_without(&[2, 3, 4, 5, 6, 7]), Group::Solids));
    let stripes_off = balls_rack_without(&[9, 10, 11, 12, 13, 14, 15]);
    assert!(is_group_cleared(&stripes_off, Group::Stripes));
    assert!(!is_group_cleared(&balls_rack_without(&[9, 10, 11, 12, 13, 14]), Group::Stripes));
}

#[test]
fn undetermined_group_is_never_cleared() {
    let all_off: Vec<u8> = (0u8..16).collect();
    assert!(!is_group_cleared(&balls_rack_without(&all_off), Group::Undetermined));
    assert!(!is_group_cleared(&fresh_rack(), Group::Undetermined));
}
