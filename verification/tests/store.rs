use controlmylights::api::{get_led, get_leds, post_led, LedRouterError};
use controlmylights::repo::{LedRepo, LedRepoError};
use controlmylights::types::Color;

fn white() -> Color {
    Color { red: 255, green: 255, blue: 255 }
}

#[test]
fn fresh_store_is_all_white_at_generation_zero() {
    let repo = LedRepo::new(vec![white(); 3]);
    assert_eq!(repo.generation(), 0);
    let snapshot = repo.snapshot();
    assert_eq!(snapshot.generation, 0);
    assert_eq!(snapshot.leds.len(), 3);
    for led in snapshot.leds {
        assert_eq!(led.color, white());
    }
}

#[test]
fn set_then_get_round_trip() {
    // A store of 3 LEDs, initially all white: one write is visible in the
    // very next read and bumps the generation to exactly 1.
    let mut repo = LedRepo::new(vec![white(); 3]);
    let written = Color { red: 10, green: 20, blue: 30 };
    let updated = repo.set(1, written).expect("id 1 exists");
    assert_eq!(updated.color, written);
    assert_eq!(repo.get(1).expect("id 1 exists").color, written);
    assert_eq!(repo.generation(), 1);
    assert!(repo.get(5).is_none());
}

#[test]
fn out_of_bounds_set_fails_and_changes_nothing() {
    let mut repo = LedRepo::new(vec![white(); 3]);
    let r = repo.set(5, Color { red: 1, green: 2, blue: 3 });
    assert_eq!(r, Err(LedRepoError::OutOfBounds(5)));
    assert_eq!(repo.generation(), 0);
    let snapshot = repo.snapshot();
    for led in snapshot.leds {
        assert_eq!(led.color, white());
    }
}

#[test]
fn out_of_bounds_get_fails() {
    let repo = LedRepo::new(vec![white(); 3]);
    assert!(repo.get(3).is_none());
    assert!(repo.get(usize::MAX).is_none());
    assert_eq!(get_led(&repo, 3), Err(LedRouterError::NotFound(3)));
}

#[test]
fn generation_counts_each_successful_set() {
    let mut repo = LedRepo::new(vec![white(); 4]);
    let before = repo.generation();
    for k in 0..10usize {
        let id = k % 4;
        repo.set(id, Color { red: k as u8, green: 0, blue: 0 })
            .expect("id in bounds");
        assert_eq!(repo.generation(), before + k + 1);
    }
}

#[test]
fn failed_sets_do_not_bump_generation() {
    let mut repo = LedRepo::new(vec![white(); 2]);
    repo.set(0, Color { red: 1, green: 1, blue: 1 }).expect("in bounds");
    let _ = repo.set(7, Color { red: 2, green: 2, blue: 2 });
    let _ = repo.set(2, Color { red: 3, green: 3, blue: 3 });
    assert_eq!(repo.generation(), 1);
}

#[test]
fn snapshot_is_consistent_with_generation() {
    let mut repo = LedRepo::new(vec![white(); 2]);
    repo.set(0, Color { red: 9, green: 8, blue: 7 }).expect("in bounds");
    let snapshot = repo.snapshot();
    assert_eq!(snapshot.generation, repo.generation());
    assert_eq!(snapshot.leds.len(), 2);
    assert_eq!(snapshot.leds[0].color, Color { red: 9, green: 8, blue: 7 });
    assert_eq!(snapshot.leds[1].color, white());
}

#[test]
fn store_rebuilt_from_snapshot_continues_at_its_generation() {
    let mut repo = LedRepo::new(vec![white(); 2]);
    repo.set(1, Color { red: 5, green: 6, blue: 7 }).expect("in bounds");
    let snapshot = repo.snapshot();
    let mut restored = LedRepo::from_snapshot(snapshot);
    assert_eq!(restored.generation(), 1);
    assert_eq!(restored.get(1).expect("id 1 exists").color, Color { red: 5, green: 6, blue: 7 });
    restored.set(0, Color { red: 1, green: 1, blue: 1 }).expect("in bounds");
    assert_eq!(restored.generation(), 2);
}

#[test]
fn get_leds_tags_every_cell_with_its_id() {
    let mut repo = LedRepo::new(vec![white(); 3]);
    repo.set(2, Color { red: 4, green: 5, blue: 6 }).expect("in bounds");
    let listed = get_leds(&repo);
    assert_eq!(listed.len(), 3);
    for (i, with_id) in listed.iter().enumerate() {
        assert_eq!(with_id.id, i);
    }
    assert_eq!(listed[2].led.color, Color { red: 4, green: 5, blue: 6 });
}

#[test]
fn post_led_maps_out_of_bounds_to_not_found() {
    let mut repo = LedRepo::new(vec![white(); 3]);
    let ok = post_led(&mut repo, 0, Color { red: 1, green: 2, blue: 3 });
    assert_eq!(ok.expect("in bounds").color, Color { red: 1, green: 2, blue: 3 });
    let err = post_led(&mut repo, 9, Color { red: 1, green: 2, blue: 3 });
    assert_eq!(err, Err(LedRouterError::NotFound(9)));
    assert_eq!(repo.generation(), 1);
}
