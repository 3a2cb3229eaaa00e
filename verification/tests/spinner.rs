use peekaboo::spinner::{frame, COLUMN, PAUSE_MILLIS, ROUNDS, SYMBOLS_PER_ROUND};

#[test]
fn spinner_turns_five_rounds_of_four_symbols() {
    assert_eq!(ROUNDS, 5);
    assert_eq!(SYMBOLS_PER_ROUND, 4);
    assert_eq!(COLUMN, 30);
    assert_eq!(PAUSE_MILLIS, 100);
    let mut drawn = String::new();
    let mut tick = 0;
    while let Some(symbol) = frame(tick) {
        drawn.push(symbol);
        tick += 1;
    }
    assert_eq!(tick, 20);
    assert_eq!(drawn, "|/-\\|/-\\|/-\\|/-\\|/-\\");
}

#[test]
fn spinner_stops_after_its_rounds() {
    assert_eq!(frame(19), Some('\\'));
    assert_eq!(frame(20), None);
    assert_eq!(frame(usize::MAX), None);
}
