use stack_ratio::ratio::{compute_ratios, Amount, Ingredient, IngredientRatio, RatioError};
use stack_ratio::report::{
    report, report_tiers, scale_share, tier_value, Container, Measure, Tier,
};
use stack_ratio::share::Share;

fn item(name: &str, numer: u64, denom: u64, stack_size: u32) -> Ingredient {
    Ingredient { name: name.to_string(), amount: Amount { numer, denom }, stack_size }
}

fn same_share(a: Share, b: Share) -> bool {
    (a.part as u128) * (b.whole as u128) == (b.part as u128) * (a.whole as u128)
}

fn value_of(r: &IngredientRatio, measure: Measure, container: Container, count: u32) -> u128 {
    tier_value(r, Tier { measure, container, count })
}

#[test]
fn two_plates_by_stacks() {
    let ings = vec![item("iron plate", 500, 1, 100), item("copper plate", 100, 1, 100)];
    let r = compute_ratios(&ings).unwrap();
    assert_eq!(r.len(), 2);
    assert_eq!(r[0].ingredient.name, "iron plate");
    assert_eq!(r[1].ingredient.name, "copper plate");
    assert!(same_share(r[0].stack_ratio, Share { part: 5, whole: 6 }));
    assert!(same_share(r[1].stack_ratio, Share { part: 1, whole: 6 }));
    assert_eq!(value_of(&r[0], Measure::Stacks, Container::Car, 1), 33);
    assert_eq!(value_of(&r[1], Measure::Stacks, Container::Car, 1), 7);
    assert_eq!(value_of(&r[0], Measure::Items, Container::Car, 1), 3300);
    assert_eq!(value_of(&r[1], Measure::Items, Container::Car, 1), 700);
}

#[test]
fn half_share_of_one_car() {
    let ings = vec![item("iron plate", 100, 1, 100), item("copper plate", 100, 1, 100)];
    let r = compute_ratios(&ings).unwrap();
    assert!(same_share(r[0].stack_ratio, Share { part: 1, whole: 2 }));
    assert_eq!(value_of(&r[0], Measure::Stacks, Container::Car, 1), 20);
    assert_eq!(value_of(&r[0], Measure::Items, Container::Car, 1), 2000);
}

#[test]
fn stack_parts_sum_to_the_whole() {
    let ings = vec![
        item("iron plate", 7, 2, 100),
        item("copper cable", 30, 1, 200),
        item("satellite", 1, 3, 1),
        item("rocket fuel", 0, 1, 10),
    ];
    let r = compute_ratios(&ings).unwrap();
    let whole = r[0].stack_ratio.whole;
    assert!(whole > 0);
    let mut sum: u64 = 0;
    for x in &r {
        assert_eq!(x.stack_ratio.whole, whole);
        sum += x.stack_ratio.part;
    }
    assert_eq!(sum, whole);
    let item_whole = r[0].ratio.whole;
    let item_sum: u64 = r.iter().map(|x| x.ratio.part).sum();
    assert_eq!(item_sum, item_whole);
}

#[test]
fn scaling_every_amount_keeps_ratios() {
    let a = vec![item("gear", 3, 1, 100), item("coal", 5, 2, 50), item("battery", 1, 4, 200)];
    let b = vec![item("gear", 21, 4, 100), item("coal", 35, 8, 50), item("battery", 7, 16, 200)];
    let ra = compute_ratios(&a).unwrap();
    let rb = compute_ratios(&b).unwrap();
    for i in 0..3 {
        assert!(same_share(ra[i].stack_ratio, rb[i].stack_ratio));
        assert!(same_share(ra[i].ratio, rb[i].ratio));
    }
}

#[test]
fn single_ingredient_has_everything() {
    let r = compute_ratios(&vec![item("widget", 13, 7, 33)]).unwrap();
    assert_eq!(r[0].stack_ratio.part, r[0].stack_ratio.whole);
    assert!(r[0].stack_ratio.whole > 0);
    assert_eq!(r[0].ratio.part, r[0].ratio.whole);
    assert_eq!(value_of(&r[0], Measure::Stacks, Container::SteelChest, 27), 1296);
}

#[test]
fn all_zero_amounts_give_zero_shares() {
    let ings = vec![item("iron plate", 0, 1, 100), item("coal", 0, 3, 50)];
    let r = compute_ratios(&ings).unwrap();
    for x in &r {
        assert_eq!(x.stack_ratio, Share { part: 0, whole: 0 });
        assert_eq!(x.ratio, Share { part: 0, whole: 0 });
        assert_eq!(value_of(x, Measure::Stacks, Container::Car, 1), 0);
        assert_eq!(value_of(x, Measure::Inserters, Container::SteelChest, 27), 0);
    }
}

#[test]
fn no_ingredients_give_no_ratios() {
    let r = compute_ratios(&Vec::new()).unwrap();
    assert!(r.is_empty());
}

#[test]
fn fractional_amounts_are_exact() {
    let ings = vec![item("a", 75, 10, 10), item("b", 15, 1, 10)];
    let r = compute_ratios(&ings).unwrap();
    assert!(same_share(r[0].stack_ratio, Share { part: 1, whole: 3 }));
    assert!(same_share(r[1].stack_ratio, Share { part: 2, whole: 3 }));
}

#[test]
fn stack_size_changes_the_stack_ratio_only() {
    let ings = vec![item("iron plate", 100, 1, 100), item("copper cable", 200, 1, 200)];
    let r = compute_ratios(&ings).unwrap();
    assert!(same_share(r[0].stack_ratio, Share { part: 1, whole: 2 }));
    assert!(same_share(r[0].ratio, Share { part: 1, whole: 3 }));
    assert!(same_share(r[1].ratio, Share { part: 2, whole: 3 }));
}

#[test]
fn too_large_denominator_is_refused() {
    let ings = vec![item("a", 1, u64::MAX, 2), item("b", 1, 1, 1)];
    assert_eq!(compute_ratios(&ings).err(), Some(RatioError::TooLarge));
}

#[test]
fn too_large_whole_is_refused() {
    let ings = vec![item("a", u64::MAX, 1, 1), item("b", u64::MAX, 1, 1)];
    assert_eq!(compute_ratios(&ings).err(), Some(RatioError::TooLarge));
}

#[test]
fn too_large_common_denominator_is_refused() {
    let ings = vec![
        item("a", 1, 1, 4_294_967_291),
        item("b", 1, 1, 4_294_967_279),
        item("c", 1, 1, 4_294_967_231),
    ];
    assert_eq!(compute_ratios(&ings).err(), Some(RatioError::TooLarge));
}

#[test]
fn rounding_goes_half_up() {
    assert_eq!(scale_share(Share { part: 1, whole: 2 }, 1), 1);
    assert_eq!(scale_share(Share { part: 1, whole: 2 }, 3), 2);
    assert_eq!(scale_share(Share { part: 1, whole: 3 }, 1), 0);
    assert_eq!(scale_share(Share { part: 2, whole: 3 }, 1), 1);
    assert_eq!(scale_share(Share { part: 0, whole: 0 }, 40), 0);
    assert_eq!(scale_share(Share { part: 5, whole: 6 }, 10000), 8333);
    assert_eq!(scale_share(Share { part: u64::MAX, whole: u64::MAX }, u64::MAX), u64::MAX);
    assert_eq!(scale_share(Share { part: u64::MAX - 1, whole: u64::MAX }, u64::MAX), u64::MAX - 1);
}

#[test]
fn inserters_follow_the_item_ratio() {
    let ings = vec![item("iron plate", 500, 1, 100), item("copper plate", 100, 1, 100)];
    let r = compute_ratios(&ings).unwrap();
    assert_eq!(value_of(&r[0], Measure::Inserters, Container::SteelChest, 27), 23);
    assert_eq!(value_of(&r[1], Measure::Inserters, Container::SteelChest, 27), 5);
    assert_eq!(value_of(&r[0], Measure::Inserters, Container::SteelChest, 6), 5);
}

#[test]
fn same_filter_repeats_one_car() {
    let ings = vec![item("iron plate", 500, 1, 100), item("copper plate", 100, 1, 100)];
    let r = compute_ratios(&ings).unwrap();
    assert_eq!(value_of(&r[1], Measure::ItemsSameFilter, Container::Car, 4), 7 * 100 * 4);
    assert_eq!(value_of(&r[1], Measure::Items, Container::Car, 4), 27 * 100);
    assert_eq!(value_of(&r[1], Measure::Stacks, Container::SteelChest, 6), 48);
}

#[test]
fn compact_and_full_tables() {
    let compact = report_tiers(false);
    assert_eq!(compact.len(), 4);
    assert_eq!(compact[0], Tier { measure: Measure::Stacks, container: Container::Car, count: 1 });
    assert_eq!(
        compact[3],
        Tier { measure: Measure::Inserters, container: Container::SteelChest, count: 27 }
    );
    let full = report_tiers(true);
    assert_eq!(full.len(), 22);
    assert_eq!(
        full[7],
        Tier { measure: Measure::Stacks, container: Container::SteelChest, count: 27 }
    );
    for t in &compact {
        assert!(full.contains(t));
    }
}

#[test]
fn report_rows_follow_the_table() {
    let ings = vec![item("iron plate", 500, 1, 100), item("copper plate", 100, 1, 100)];
    let r = compute_ratios(&ings).unwrap();
    let rows = report(&r[0], false);
    let values: Vec<u128> = rows.iter().map(|row| row.value).collect();
    assert_eq!(values, vec![33, 33 * 100 * 4, 1080 * 100, 23]);
    let full = report(&r[0], true);
    assert_eq!(full.len(), 22);
    assert_eq!(full[4].value, 40);
}
