use rps_simulator::FightResults::{Lost, Tied, Won};
use rps_simulator::Shape::{self, Paper, Rock, Scissors};

#[test]
fn test_fight() {
    assert_eq!(Shape::fight(Paper, Rock), Won);
    assert_eq!(Shape::fight(Rock, Rock), Tied);
    assert_eq!(Shape::fight(Scissors, Rock), Lost);
}

#[test]
fn fight_full_table() {
    assert_eq!(Shape::fight(Rock, Scissors), Won);
    assert_eq!(Shape::fight(Scissors, Paper), Won);
    assert_eq!(Shape::fight(Paper, Scissors), Lost);
    assert_eq!(Shape::fight(Rock, Paper), Lost);
    assert_eq!(Shape::fight(Paper, Paper), Tied);
    assert_eq!(Shape::fight(Scissors, Scissors), Tied);
}
