use stack_ratio::options::parse_options;
use stack_ratio::parse::{parse_amount, parse_stack_size};
use stack_ratio::ratio::Amount;
use stack_ratio::session::{Collector, Input, Reply, Stage};

fn amount(numer: u64, denom: u64) -> Option<Amount> {
    Some(Amount { numer, denom })
}

fn line(s: &str) -> Input {
    Input::Line(s.to_string())
}

#[test]
fn amounts_read_as_exact_decimals() {
    assert_eq!(parse_amount("12"), amount(12, 1));
    assert_eq!(parse_amount("7.5"), amount(75, 10));
    assert_eq!(parse_amount(".25"), amount(25, 100));
    assert_eq!(parse_amount("3."), amount(3, 1));
    assert_eq!(parse_amount("0"), amount(0, 1));
    assert_eq!(parse_amount("007.50"), amount(750, 100));
    assert_eq!(parse_amount("18446744073709551615"), amount(u64::MAX, 1));
    assert_eq!(parse_amount("0.0000000000000000001"), amount(1, 10_000_000_000_000_000_000));
}

#[test]
fn malformed_amounts_are_refused() {
    assert_eq!(parse_amount(""), None);
    assert_eq!(parse_amount("."), None);
    assert_eq!(parse_amount("1.2.3"), None);
    assert_eq!(parse_amount("abc"), None);
    assert_eq!(parse_amount("-1"), None);
    assert_eq!(parse_amount(" 5"), None);
    assert_eq!(parse_amount("5x"), None);
    assert_eq!(parse_amount("1.x"), None);
    assert_eq!(parse_amount("18446744073709551616"), None);
    assert_eq!(parse_amount("0.00000000000000000001"), None);
}

#[test]
fn stack_sizes_are_positive_whole_numbers() {
    assert_eq!(parse_stack_size("100"), Some(100));
    assert_eq!(parse_stack_size("4294967295"), Some(u32::MAX));
    assert_eq!(parse_stack_size("4294967296"), None);
    assert_eq!(parse_stack_size("0"), None);
    assert_eq!(parse_stack_size(""), None);
    assert_eq!(parse_stack_size("1.5"), None);
    assert_eq!(parse_stack_size("+5"), None);
}

#[test]
fn known_item_is_entered_in_two_answers() {
    let c = Collector::new();
    let (c, reply) = c.step(line("Iron PLATE"));
    assert_eq!(reply, Reply::Next);
    assert_eq!(c.stage, Stage::Amount { name: "iron plate".to_string() });
    let (c, reply) = c.step(line("500"));
    assert_eq!(reply, Reply::Next);
    assert_eq!(c.stage, Stage::Name);
    assert_eq!(c.ingredients.len(), 1);
    assert_eq!(c.ingredients[0].name, "iron plate");
    assert_eq!(c.ingredients[0].amount, Amount { numer: 500, denom: 1 });
    assert_eq!(c.ingredients[0].stack_size, 100);
}

#[test]
fn unknown_item_asks_for_its_stack_size() {
    let (c, _) = Collector::new().step(line("Widget"));
    let (c, reply) = c.step(line("x"));
    assert_eq!(reply, Reply::Invalid);
    assert_eq!(c.stage, Stage::Amount { name: "widget".to_string() });
    let (c, reply) = c.step(line("2.5"));
    assert_eq!(reply, Reply::Next);
    let waiting = Stage::StackSize { name: "widget".to_string(), amount: Amount { numer: 25, denom: 10 } };
    assert_eq!(c.stage, waiting);
    let (c, reply) = c.step(line("0"));
    assert_eq!(reply, Reply::Invalid);
    assert_eq!(c.stage, waiting);
    let (c, reply) = c.step(line("25"));
    assert_eq!(reply, Reply::Next);
    assert_eq!(c.stage, Stage::Name);
    assert_eq!(c.ingredients.len(), 1);
    assert_eq!(c.ingredients[0].stack_size, 25);
}

#[test]
fn interrupt_ends_the_list() {
    let (c, _) = Collector::new().step(line("coal"));
    let (c, _) = c.step(line("10"));
    let (c, _) = c.step(line("stone"));
    let (c, reply) = c.step(Input::Interrupted);
    assert_eq!(reply, Reply::Finished);
    assert_eq!(c.stage, Stage::Done);
    assert_eq!(c.ingredients.len(), 1);
    let (c, reply) = c.step(line("more"));
    assert_eq!(reply, Reply::Finished);
    assert_eq!(c.ingredients.len(), 1);
}

#[test]
fn flags_are_found_anywhere() {
    let args = |v: &[&str]| v.iter().map(|s| s.to_string()).collect::<Vec<String>>();
    let o = parse_options(&args(&["prog", "-f"]));
    assert!(o.full && !o.help);
    let o = parse_options(&args(&["prog", "-x", "-h"]));
    assert!(o.help && !o.full);
    let o = parse_options(&args(&["prog", "--f", "f"]));
    assert!(!o.help && !o.full);
}
