use dodge_the_creeps::mob::{choose_animation_index, on_screen_exited, MobAction};

#[test]
fn single_variant_leaves_no_choice() {
    for _ in 0..50 {
        assert_eq!(choose_animation_index(1), 0);
    }
}

#[test]
fn chosen_variant_is_always_in_range() {
    for _ in 0..200 {
        assert!(choose_animation_index(3) < 3);
    }
    for _ in 0..200 {
        assert!(choose_animation_index(7) < 7);
    }
}

#[test]
fn every_variant_comes_up() {
    let mut seen = [false; 3];
    for _ in 0..500 {
        seen[choose_animation_index(3)] = true;
    }
    assert_eq!(seen, [true, true, true]);
}

#[test]
fn leaving_the_screen_frees_the_mob() {
    assert_eq!(on_screen_exited(), MobAction::Free);
}
