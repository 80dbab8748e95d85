use todo_list::prelude::Priority;

#[test]
fn default_priority() {
    let priority = Priority::default();
    assert_eq!(priority, Priority::Common);
}

#[test]
fn order() {
    assert!(Priority::Common < Priority::Green);
    assert!(Priority::Green < Priority::Yellow);
    assert!(Priority::Yellow < Priority::Red);
}

#[test]
fn up_common() {
    let priority = Priority::Common;
    assert_eq!(priority.up(), Priority::Green);
}

#[test]
fn up_green() {
    let priority = Priority::Green;
    assert_eq!(priority.up(), Priority::Yellow);
}

#[test]
fn up_yellow() {
    let priority = Priority::Yellow;
    assert_eq!(priority.up(), Priority::Red);
}

#[test]
fn up_red() {
    let priority = Priority::Red;
    assert_eq!(priority.up(), Priority::Red);
}

#[test]
fn down_common() {
    let priority = Priority::Common;
    assert_eq!(priority.down(), Priority::Common);
}

#[test]
fn down_green() {
    let priority = Priority::Green;
    assert_eq!(priority.down(), Priority::Common);
}

#[test]
fn down_yellow() {
    let priority = Priority::Yellow;
    assert_eq!(priority.down(), Priority::Green);
}

#[test]
fn down_red() {
    let priority = Priority::Red;
    assert_eq!(priority.down(), Priority::Yellow);
}

#[test]
fn order_is_total_and_strict() {
    let levels = [Priority::Common, Priority::Green, Priority::Yellow, Priority::Red];
    for (i, a) in levels.iter().enumerate() {
        for (j, b) in levels.iter().enumerate() {
            assert_eq!(a < b, i < j);
            assert_eq!(a <= b, i <= j);
            assert_eq!(a > b, i > j);
            assert_eq!(a >= b, i >= j);
            assert_eq!(a == b, i == j);
        }
    }
}

#[test]
fn level_counts_from_common() {
    assert_eq!(Priority::Common.level(), 0);
    assert_eq!(Priority::Green.level(), 1);
    assert_eq!(Priority::Yellow.level(), 2);
    assert_eq!(Priority::Red.level(), 3);
}

#[test]
fn up_stays_at_red_however_often() {
    let mut priority = Priority::Red;
    for _ in 0..5 {
        priority = priority.up();
        assert_eq!(priority, Priority::Red);
    }
}

#[test]
fn down_stays_at_common_however_often() {
    let mut priority = Priority::Common;
    for _ in 0..5 {
        priority = priority.down();
        assert_eq!(priority, Priority::Common);
    }
}

#[test]
fn down_undoes_up_below_red() {
    for priority in [Priority::Common, Priority::Green, Priority::Yellow] {
        assert_eq!(priority.up().down(), priority);
    }
    assert_eq!(Priority::Red.up().down(), Priority::Yellow);
}

#[test]
fn up_undoes_down_above_common() {
    for priority in [Priority::Green, Priority::Yellow, Priority::Red] {
        assert_eq!(priority.down().up(), priority);
    }
    assert_eq!(Priority::Common.down().up(), Priority::Green);
}

#[test]
fn priority_names() {
    assert_eq!(Priority::Common.to_string(), "Common");
    assert_eq!(Priority::Green.to_string(), "Green");
    assert_eq!(Priority::Yellow.to_string(), "Yellow");
    assert_eq!(Priority::Red.to_string(), "Red");
}
