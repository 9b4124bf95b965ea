use chip_maximator::math::Cell;
use chip_maximator::scoloc::{
    new_deck, AlertKind, Card, CardGrade, CardKind, GameState, Scoloc, DECK_CARDS, MAX_HEALTH,
};

fn game_with_room(cards: [Option<Card>; 4]) -> Scoloc {
    let mut g = Scoloc::new();
    g.state.room = cards;
    g.state.room_cards = cards.iter().filter(|c| c.is_some()).count();
    g.state.used_potion = false;
    g
}

#[test]
fn grades_and_names() {
    assert_eq!(CardGrade::Two.value(), 2);
    assert_eq!(CardGrade::Ten.value(), 10);
    assert_eq!(CardGrade::Ace.value(), 14);
    assert_eq!(CardKind::Diamonds.name(), "weapon");
    assert_eq!(CardKind::Hearts.name(), "potion");
    assert_eq!(CardKind::Club.name(), "monster");
    assert_eq!(CardKind::Spade.name(), "monster");
    let c = Card::new(CardKind::Hearts, CardGrade::Queen);
    assert_eq!(c.sprite_frame(), Cell::new(10, 1));
}

#[test]
fn full_deck_and_shuffle_keep_cards() {
    let deck = new_deck();
    assert_eq!(deck.len(), DECK_CARDS);
    assert_eq!(deck[0], Card::new(CardKind::Spade, CardGrade::Two));
    assert_eq!(deck[25], Card::new(CardKind::Club, CardGrade::Ace));
    assert_eq!(deck[34], Card::new(CardKind::Diamonds, CardGrade::Ten));
    assert_eq!(deck[43], Card::new(CardKind::Hearts, CardGrade::Ten));
    let state = GameState::default();
    assert_ne!(state.deck, deck);
    let mut a: Vec<String> = deck.iter().map(|c| format!("{c:?}")).collect();
    let mut b: Vec<String> = state.deck.iter().map(|c| format!("{c:?}")).collect();
    a.sort();
    b.sort();
    assert_eq!(a, b);
}

#[test]
fn new_game_deals_a_room() {
    let g = Scoloc::new();
    assert_eq!(g.state.room_cards, 4);
    assert!(g.state.room.iter().all(|c| c.is_some()));
    assert_eq!(g.state.deck.len(), DECK_CARDS - 4);
    assert_eq!(g.state.health, MAX_HEALTH);
}

#[test]
fn weapons_soften_monsters_until_they_break() {
    let sword = Some(Card::new(CardKind::Diamonds, CardGrade::Five));
    let big = Some(Card::new(CardKind::Club, CardGrade::Nine));
    let small = Some(Card::new(CardKind::Spade, CardGrade::Three));
    let bigger = Some(Card::new(CardKind::Spade, CardGrade::Ten));
    let mut g = game_with_room([sword, big, small, bigger]);
    g.pick_card(0);
    assert_eq!(g.state.weapon, 5);
    g.pick_card(1);
    assert_eq!(g.state.health, 16);
    assert_eq!(g.state.killed_cards, vec![CardGrade::Nine]);
    g.pick_card(2);
    assert_eq!(g.state.health, 16);
    g.pick_card(3);
    assert_eq!(g.state.health, 6);
    assert_eq!(g.state.weapon, 0);
    assert!(g.state.killed_cards.is_empty());
    assert_eq!(g.state.room_cards, 0);
    assert_eq!(g.picked_card_idx, Some(3));
}

#[test]
fn potions_heal_once_in_a_row() {
    let monster = Some(Card::new(CardKind::Club, CardGrade::King));
    let potion = Some(Card::new(CardKind::Hearts, CardGrade::Five));
    let potion2 = Some(Card::new(CardKind::Hearts, CardGrade::Nine));
    let mut g = game_with_room([monster, potion, potion2, None]);
    g.pick_card(0);
    assert_eq!(g.state.health, 7);
    g.pick_card(1);
    assert_eq!(g.state.health, 12);
    assert!(g.state.used_potion);
    g.pick_card(2);
    assert_eq!(g.state.health, 12);
}

#[test]
fn death_ends_the_game() {
    let ace = Some(Card::new(CardKind::Spade, CardGrade::Ace));
    let mut g = game_with_room([ace, ace, None, None]);
    g.pick_card(0);
    assert!(!g.is_game_over());
    g.pick_card(1);
    assert_eq!(g.state.health, 0);
    assert!(g.is_game_over());
    assert_eq!(g.state.alert_kind, Some(AlertKind::GameOver));
    assert!(g.paused());
}

#[test]
fn running_puts_cards_under_the_deck() {
    let mut g = Scoloc::new();
    let room: Vec<Card> = g.state.room.iter().flatten().copied().collect();
    let deck_len = g.state.deck.len();
    g.run();
    assert!(g.state.prev_ran);
    assert_eq!(g.state.deck.len() + g.state.room_cards, deck_len + 4);
    assert_eq!(&g.state.deck[..4], &[room[3], room[2], room[1], room[0]]);
    let before = g.state.deck.len();
    g.run();
    assert_eq!(g.state.deck.len(), before);
}

#[test]
fn empty_deck_wins() {
    let mut g = game_with_room([None, None, None, None]);
    g.state.deck.clear();
    g.update(None, false);
    assert_eq!(g.state.alert_kind, Some(AlertKind::Win));
}

#[test]
fn clicks_pick_hovered_cards() {
    let potion = Some(Card::new(CardKind::Hearts, CardGrade::Two));
    let mut g = game_with_room([None, potion, None, None]);
    g.state.health = 10;
    g.update(Some(0), true);
    assert_eq!(g.hovered_card_idx, None);
    g.update(Some(1), false);
    assert_eq!(g.hovered_card_idx, Some(1));
    assert_eq!(g.state.health, 10);
    g.update(Some(1), true);
    assert_eq!(g.state.health, 12);
    g.rules_opened = true;
    g.update(Some(1), true);
    assert_eq!(g.hovered_card_idx, None);
}
