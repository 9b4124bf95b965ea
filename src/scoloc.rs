use vstd::prelude::*;

use quad_rand::ChooseRandom;

use crate::math::Cell;

verus! {

/// Cards in a full deck: all spades and clubs, diamonds and hearts up to ten
pub const DECK_CARDS: usize = 44;

pub const ROOM_CARDS: usize = 4;

pub const MAX_HEALTH: u8 = 20;

/// Card grade
#[derive(Debug, Clone, Copy, PartialEq, Eq, Structural)]
pub enum CardGrade {
    Two,
    Three,
    Four,
    Five,
    Six,
    Seven,
    Eight,
    Nine,
    Ten,
    Jack,
    Queen,
    King,
    Ace,
}

pub open spec fn grade_value(g: CardGrade) -> u8 {
    match g {
        CardGrade::Two => 2,
        CardGrade::Three => 3,
        CardGrade::Four => 4,
        CardGrade::Five => 5,
        CardGrade::Six => 6,
        CardGrade::Seven => 7,
        CardGrade::Eight => 8,
        CardGrade::Nine => 9,
        CardGrade::Ten => 10,
        CardGrade::Jack => 11,
        CardGrade::Queen => 12,
        CardGrade::King => 13,
        CardGrade::Ace => 14,
    }
}

/// The grade of value `v` (2 to 14)
pub open spec fn grade_of_value(v: int) -> CardGrade {
    if v <= 2 {
        CardGrade::Two
    } else if v == 3 {
        CardGrade::Three
    } else if v == 4 {
        CardGrade::Four
    } else if v == 5 {
        CardGrade::Five
    } else if v == 6 {
        CardGrade::Six
    } else if v == 7 {
        CardGrade::Seven
    } else if v == 8 {
        CardGrade::Eight
    } else if v == 9 {
        CardGrade::Nine
    } else if v == 10 {
        CardGrade::Ten
    } else if v == 11 {
        CardGrade::Jack
    } else if v == 12 {
        CardGrade::Queen
    } else if v == 13 {
        CardGrade::King
    } else {
        CardGrade::Ace
    }
}

impl CardGrade {
    pub fn value(&self) -> (r: u8)
        ensures
            r == grade_value(*self),
    {
        match self {
            CardGrade::Two => 2,
            CardGrade::Three => 3,
            CardGrade::Four => 4,
            CardGrade::Five => 5,
            CardGrade::Six => 6,
            CardGrade::Seven => 7,
            CardGrade::Eight => 8,
            CardGrade::Nine => 9,
            CardGrade::Ten => 10,
            CardGrade::Jack => 11,
            CardGrade::Queen => 12,
            CardGrade::King => 13,
            CardGrade::Ace => 14,
        }
    }

    fn from_value(v: u8) -> (r: CardGrade)
        ensures
            r == grade_of_value(v as int),
    {
        if v <= 2 {
            CardGrade::Two
        } else if v == 3 {
            CardGrade::Three
        } else if v == 4 {
            CardGrade::Four
        } else if v == 5 {
            CardGrade::Five
        } else if v == 6 {
            CardGrade::Six
        } else if v == 7 {
            CardGrade::Seven
        } else if v == 8 {
            CardGrade::Eight
        } else if v == 9 {
            CardGrade::Nine
        } else if v == 10 {
            CardGrade::Ten
        } else if v == 11 {
            CardGrade::Jack
        } else if v == 12 {
            CardGrade::Queen
        } else if v == 13 {
            CardGrade::King
        } else {
            CardGrade::Ace
        }
    }
}

/// Card kind
#[derive(Debug, Clone, Copy, PartialEq, Eq, Structural)]
pub enum CardKind {
    /// Weapon
    Diamonds,
    /// Heal potion
    Hearts,
    /// Monster
    Club,
    /// Monster
    Spade,
}

impl CardKind {
    /// What the card is in the game
    pub fn name(&self) -> (r: &'static str)
        ensures
            *self == CardKind::Diamonds ==> r@ == "weapon"@,
            *self == CardKind::Hearts ==> r@ == "potion"@,
            (*self == CardKind::Club || *self == CardKind::Spade) ==> r@ == "monster"@,
    {
        match self {
            CardKind::Diamonds => "weapon",
            CardKind::Hearts => "potion",
            CardKind::Club => "monster",
            CardKind::Spade => "monster",
        }
    }
}

/// Alert kind
#[derive(Debug, Clone, Copy, PartialEq, Eq, Structural)]
pub enum AlertKind {
    GameOver,
    Win,
}

/// Card
#[derive(Debug, Clone, Copy, PartialEq, Eq, Structural)]
pub struct Card {
    pub kind: CardKind,
    pub grade: CardGrade,
}

pub open spec fn kind_row(kind: CardKind) -> i32 {
    match kind {
        CardKind::Diamonds => 3,
        CardKind::Hearts => 1,
        CardKind::Club => 2,
        CardKind::Spade => 0,
    }
}

impl Card {
    pub fn new(kind: CardKind, grade: CardGrade) -> (r: Card)
        ensures
            r == (Card { kind, grade }),
    {
        Card { kind, grade }
    }

    /// Frame of the card in the cards texture: grade across, kind down
    pub fn sprite_frame(&self) -> (r: Cell)
        ensures
            r == (Cell { x: (grade_value(self.grade) - 2) as i32, y: kind_row(self.kind) }),
    {
        let y = match self.kind {
            CardKind::Diamonds => 3,
            CardKind::Hearts => 1,
            CardKind::Club => 2,
            CardKind::Spade => 0,
        };
        Cell::new(self.grade.value() as i32 - 2, y)
    }
}

/// Card `i` of the full deck, in order
pub open spec fn deck_card(i: int) -> Card {
    if i < 13 {
        Card { kind: CardKind::Spade, grade: grade_of_value(i + 2) }
    } else if i < 26 {
        Card { kind: CardKind::Club, grade: grade_of_value(i - 13 + 2) }
    } else if i < 35 {
        Card { kind: CardKind::Diamonds, grade: grade_of_value(i - 26 + 2) }
    } else {
        Card { kind: CardKind::Hearts, grade: grade_of_value(i - 35 + 2) }
    }
}

pub open spec fn default_deck() -> Seq<Card> {
    Seq::new(DECK_CARDS as nat, |i: int| deck_card(i))
}

/// The full deck, in order
pub fn new_deck() -> (r: Vec<Card>)
    ensures
        r@ == default_deck(),
{
    let mut deck: Vec<Card> = Vec::new();
    let mut i: usize = 0;
    while i < DECK_CARDS
        invariant
            i <= DECK_CARDS,
            deck@ == default_deck().subrange(0, i as int),
        decreases DECK_CARDS - i,
    {
        let card = if i < 13 {
            Card::new(CardKind::Spade, CardGrade::from_value(i as u8 + 2))
        } else if i < 26 {
            Card::new(CardKind::Club, CardGrade::from_value(i as u8 - 13 + 2))
        } else if i < 35 {
            Card::new(CardKind::Diamonds, CardGrade::from_value(i as u8 - 26 + 2))
        } else {
            Card::new(CardKind::Hearts, CardGrade::from_value(i as u8 - 35 + 2))
        };
        deck.push(card);
        assert(deck@ =~= default_deck().subrange(0, i + 1));
        i += 1;
    }
    deck
}

/// Relies on quad_rand's `ChooseRandom::shuffle` for slices (Fisher-Yates by
/// swaps): the cards are only reordered.
#[verifier::external_body]
fn shuffle_cards(cards: &mut Vec<Card>)
    ensures
        final(cards)@.to_multiset() == old(cards)@.to_multiset(),
{
    cards.as_mut_slice().shuffle();
}


/// Number of occupied slots of a room
pub open spec fn occupied(room: Seq<Option<Card>>) -> nat {
    (if room[0] is Some {
        1nat
    } else {
        0nat
    }) + (if room[1] is Some {
        1nat
    } else {
        0nat
    }) + (if room[2] is Some {
        1nat
    } else {
        0nat
    }) + (if room[3] is Some {
        1nat
    } else {
        0nat
    })
}

/// The cards left in a room, last slot first
pub open spec fn left_in_room(room: Seq<Option<Card>>) -> Seq<Card> {
    let pick = |o: Option<Card>|
        match o {
            Some(c) => seq![c],
            None => Seq::<Card>::empty(),
        };
    pick(room[3]) + pick(room[2]) + pick(room[1]) + pick(room[0])
}

/// Game state
pub struct GameState {
    pub deck: Vec<Card>,
    pub room: [Option<Card>; ROOM_CARDS],
    /// Number of cards in the current room
    pub room_cards: usize,
    pub health: u8,
    pub weapon: u8,
    /// Whether the player ran from the previous room
    pub prev_ran: bool,
    /// Whether the player used a potion on the previous pick
    pub used_potion: bool,
    /// Monsters slain with the current weapon, in order
    pub killed_cards: Vec<CardGrade>,
    pub distorting: bool,
    pub alert_kind: Option<AlertKind>,
}

impl GameState {
    pub open spec fn wf(&self) -> bool {
        &&& self.room_cards == occupied(self.room@)
        &&& self.health <= MAX_HEALTH
    }
}

impl Default for GameState {
    /// A shuffled full deck, an empty room, full health and no weapon
    fn default() -> (r: GameState)
        ensures
            r.wf(),
            r.deck@.to_multiset() == default_deck().to_multiset(),
            r.room@ == seq![None::<Card>, None, None, None],
            r.health == MAX_HEALTH,
            r.weapon == 0,
            !r.prev_ran && !r.used_potion && !r.distorting,
            r.killed_cards@.len() == 0,
            r.alert_kind == None::<AlertKind>,
    {
        let mut deck = new_deck();
        shuffle_cards(&mut deck);
        let r = GameState {
            deck,
            room: [None; ROOM_CARDS],
            room_cards: 0,
            health: MAX_HEALTH,
            weapon: 0,
            prev_ran: false,
            used_potion: false,
            killed_cards: Vec::new(),
            distorting: false,
            alert_kind: None,
        };
        assert(r.room@ =~= seq![None::<Card>, None, None, None]);
        r
    }
}

/// Scoloc card game
pub struct Scoloc {
    pub state: GameState,
    pub hovered_card_idx: Option<usize>,
    pub picked_card_idx: Option<usize>,
    pub rules_opened: bool,
}

impl Scoloc {
    /// A new game with its first room dealt
    pub fn new() -> (r: Scoloc)
        ensures
            r.state.wf(),
            r.state.health == MAX_HEALTH,
            r.state.room_cards == ROOM_CARDS,
            r.state.deck@.len() == DECK_CARDS - ROOM_CARDS,
    {
        let mut game = Scoloc {
            state: GameState::default(),
            hovered_card_idx: None,
            picked_card_idx: None,
            rules_opened: false,
        };
        proof {
            game.state.deck@.to_multiset_ensures();
            default_deck().to_multiset_ensures();
        }
        game.next_room();
        game
    }

    /// Deals the last four cards of the deck into the empty room; an empty
    /// deck wins the game
    pub fn next_room(&mut self)
        requires
            old(self).state.wf(),
            old(self).state.room@ == seq![None::<Card>, None, None, None],
        ensures
            final(self).state.wf(),
            final(self).state.health == old(self).state.health,
            final(self).state.weapon == old(self).state.weapon,
            final(self).state.killed_cards@ == old(self).state.killed_cards@,
            old(self).state.deck@.len() == 0 ==> {
                &&& final(self).state.alert_kind == Some(AlertKind::Win)
                &&& final(self).state.room@ == old(self).state.room@
                &&& final(self).state.deck@ == old(self).state.deck@
                &&& final(self).state.prev_ran == old(self).state.prev_ran
            },
            old(self).state.deck@.len() > 0 ==> {
                let d = old(self).state.deck@;
                let start = if d.len() >= 4 {
                    d.len() - 4
                } else {
                    0
                };
                &&& final(self).state.deck@ == d.subrange(0, start)
                &&& final(self).state.room_cards == d.len() - start
                &&& forall|i: int|
                    0 <= i < 4 ==> #[trigger] final(self).state.room@[i] == if i < d.len() - start {
                        Some(d[start + i])
                    } else {
                        None
                    }
                &&& !final(self).state.prev_ran
                &&& final(self).state.alert_kind == old(self).state.alert_kind
            },
    {
        if self.state.deck.len() == 0 {
            self.set_alert(AlertKind::Win);
            return ;
        }
        let end = self.state.deck.len();
        let start = if end >= 4 {
            end - 4
        } else {
            0
        };
        let ghost d = self.state.deck@;
        self.state.room_cards = 0;
        self.state.prev_ran = false;
        let mut i: usize = 0;
        while start + i < end
            invariant
                start <= end,
                end - start <= 4,
                d.len() == end,
                self.state.deck@ == d,
                i <= end - start,
                self.state.room_cards == i,
                forall|k: int|
                    0 <= k < 4 ==> #[trigger] self.state.room@[k] == if k < i {
                        Some(d[start + k])
                    } else {
                        None
                    },
                self.state.health == old(self).state.health,
                self.state.weapon == old(self).state.weapon,
                self.state.killed_cards == old(self).state.killed_cards,
                self.state.alert_kind == old(self).state.alert_kind,
                !self.state.prev_ran,
            decreases end - start - i,
        {
            let card = self.state.deck[start + i];
            self.state.room[i] = Some(card);
            self.state.room_cards = self.state.room_cards + 1;
            i += 1;
        }
        self.state.deck.truncate(start);
        assert(self.state.deck@ =~= d.subrange(0, start as int));
    }

    /// Runs from the room, unless the player ran from the previous one: the
    /// cards left go under the deck and the next room is dealt
    pub fn run(&mut self)
        requires
            old(self).state.wf(),
        ensures
            final(self).state.wf(),
            final(self).state.health == old(self).state.health,
            final(self).state.weapon == old(self).state.weapon,
            old(self).state.prev_ran ==> final(self).state.deck@ == old(self).state.deck@
                && final(self).state.room@ == old(self).state.room@,
            !old(self).state.prev_ran ==> final(self).state.deck@.len() + final(self).state.room_cards == old(self).state.deck@.len() + old(self).state.room_cards,
            !old(self).state.prev_ran && old(self).state.deck@.len() + old(self).state.room_cards
                > 0 ==> final(self).state.prev_ran,
    {
        if self.state.prev_ran {
            return ;
        }
        let ghost d0 = self.state.deck@;
        let mut i: usize = 0;
        while i < ROOM_CARDS
            invariant
                i <= ROOM_CARDS,
                self.state.deck@.len() + occupied(self.state.room@) == d0.len() + old(self).state.room_cards,
                forall|k: int| 0 <= k < i ==> #[trigger] self.state.room@[k] is None,
                forall|k: int| i <= k < 4 ==> #[trigger] self.state.room@[k] == old(self).state.room@[k],
                old(self).state.room_cards == occupied(old(self).state.room@),
                self.state.health == old(self).state.health,
                self.state.weapon == old(self).state.weapon,
                self.state.health <= MAX_HEALTH,
            decreases ROOM_CARDS - i,
        {
            if let Some(card) = self.state.room[i] {
                self.state.deck.insert(0, card);
                self.state.room[i] = None;
            }
            i += 1;
        }
        self.state.room_cards = 0;
        assert(self.state.room@ =~= seq![None::<Card>, None, None, None]);
        self.next_room();
        self.state.prev_ran = true;
    }

    /// Takes the card in slot `idx`: a weapon is equipped, a potion heals,
    /// a monster fights
    pub fn pick_card(&mut self, idx: usize)
        requires
            old(self).state.wf(),
            idx < ROOM_CARDS,
        ensures
            final(self).state.wf(),
            old(self).state.room@[idx as int] is None ==> final(self).state.health == old(self).state.health && final(self).state.room@ == old(self).state.room@,
            old(self).state.room@[idx as int] matches Some(card) ==> {
                &&& final(self).state.room@ == old(self).state.room@.update(idx as int, None)
                &&& final(self).state.used_potion == (card.kind == CardKind::Hearts)
                &&& final(self).picked_card_idx == Some(idx)
                &&& final(self).state.distorting
                &&& card.kind == CardKind::Diamonds ==> final(self).state.weapon == grade_value(
                    card.grade,
                ) && final(self).state.killed_cards@.len() == 0
                    && final(self).state.health == old(self).state.health
                &&& card.kind == CardKind::Hearts ==> final(self).state.health == if old(self).state.used_potion {
                    old(self).state.health as int
                } else if old(self).state.health + grade_value(card.grade) > MAX_HEALTH {
                    MAX_HEALTH as int
                } else {
                    old(self).state.health + grade_value(card.grade)
                }
                &&& (card.kind == CardKind::Club || card.kind == CardKind::Spade) ==> final(self).state.health == fought_health(
                    old(self).state.health,
                    old(self).state.weapon,
                    old(self).state.killed_cards@,
                    card.grade,
                )
            },
    {
        let card = match self.state.room[idx] {
            Some(c) => c,
            None => {
                return ;
            },
        };
        let value = card.grade.value();
        match card.kind {
            CardKind::Diamonds => self.equip(value),
            CardKind::Hearts => self.heal(value),
            CardKind::Club => self.damage(card.grade),
            CardKind::Spade => self.damage(card.grade),
        }
        self.state.used_potion = card.kind == CardKind::Hearts;
        self.state.room_cards = self.state.room_cards - 1;
        self.state.room[idx] = None;
        self.picked_card_idx = Some(idx);
        self.state.distorting = true;
        assert(self.state.room@ =~= old(self).state.room@.update(idx as int, None));
    }

    /// Equips a weapon; monsters slain with the previous one are forgotten
    pub fn equip(&mut self, weapon: u8)
        ensures
            final(self).state.weapon == weapon,
            final(self).state.killed_cards@.len() == 0,
            final(self).state.health == old(self).state.health,
            final(self).state.room == old(self).state.room,
            final(self).state.room_cards == old(self).state.room_cards,
    {
        self.state.weapon = weapon;
        self.state.killed_cards.clear();
    }

    /// Heals by `value` up to full health, unless a potion was just used
    pub fn heal(&mut self, value: u8)
        requires
            old(self).state.health <= MAX_HEALTH,
        ensures
            final(self).state.health == if old(self).state.used_potion {
                old(self).state.health as int
            } else if old(self).state.health + value > MAX_HEALTH {
                MAX_HEALTH as int
            } else {
                old(self).state.health + value
            },
            final(self).state.weapon == old(self).state.weapon,
            final(self).state.room == old(self).state.room,
            final(self).state.room_cards == old(self).state.room_cards,
    {
        if self.state.used_potion {
            return ;
        }
        let sum = self.state.health as u16 + value as u16;
        self.state.health = if sum > MAX_HEALTH as u16 {
            MAX_HEALTH
        } else {
            sum as u8
        };
    }

    /// Fights a monster of grade `grade`
    pub fn damage(&mut self, grade: CardGrade)
        ensures
            final(self).state.health == fought_health(
                old(self).state.health,
                old(self).state.weapon,
                old(self).state.killed_cards@,
                grade,
            ),
            final(self).state.health == 0 ==> final(self).state.alert_kind == Some(
                AlertKind::GameOver,
            ),
            final(self).state.health != 0 ==> final(self).state.alert_kind == old(self).state.alert_kind,
            final(self).state.room == old(self).state.room,
            final(self).state.room_cards == old(self).state.room_cards,
            old(self).state.killed_cards@.len() > 0 && grade_value(grade) < grade_value(
                old(self).state.killed_cards@.last(),
            ) ==> final(self).state.killed_cards@ == old(self).state.killed_cards@.push(grade)
                && final(self).state.weapon == old(self).state.weapon,
            old(self).state.killed_cards@.len() > 0 && grade_value(grade) >= grade_value(
                old(self).state.killed_cards@.last(),
            ) ==> final(self).state.killed_cards@.len() == 0 && final(self).state.weapon == 0,
            old(self).state.killed_cards@.len() == 0 ==> final(self).state.weapon == old(self).state.weapon && final(self).state.killed_cards@ == if old(self).state.weapon > 0
                && grade_value(grade) > 0 {
                seq![grade]
            } else {
                seq![]
            },
    {
        let value = grade.value();
        let damage: u8;
        let n = self.state.killed_cards.len();
        if n > 0 {
            let last = self.state.killed_cards[n - 1].value();
            if value < last {
                damage = 0;
                self.state.killed_cards.push(grade);
            } else {
                damage = value;
                self.state.weapon = 0;
                self.state.killed_cards.clear();
            }
        } else {
            damage = value.saturating_sub(self.state.weapon);
            if damage < value {
                self.state.killed_cards.push(grade);
            }
        }
        self.state.health = self.state.health.saturating_sub(damage);
        if self.state.health == 0 {
            self.set_alert(AlertKind::GameOver);
        }
    }

    /// Shows an alert; the game pauses
    pub fn set_alert(&mut self, kind: AlertKind)
        ensures
            final(self).state.alert_kind == Some(kind),
            final(self).state.health == old(self).state.health,
            final(self).state.weapon == old(self).state.weapon,
            final(self).state.deck == old(self).state.deck,
            final(self).state.room == old(self).state.room,
            final(self).state.room_cards == old(self).state.room_cards,
            final(self).state.prev_ran == old(self).state.prev_ran,
            final(self).state.killed_cards == old(self).state.killed_cards,
    {
        self.state.alert_kind = Some(kind);
    }

    /// Starts a new game
    pub fn reset(&mut self)
        ensures
            final(self).state.wf(),
            final(self).state.health == MAX_HEALTH,
            final(self).state.room_cards == ROOM_CARDS,
            final(self).state.deck@.len() == DECK_CARDS - ROOM_CARDS,
    {
        let fresh = Scoloc::new();
        self.state = fresh.state;
    }

    /// Whether an alert or the rules are shown
    pub fn paused(&self) -> (r: bool)
        ensures
            r == (self.state.alert_kind is Some || self.rules_opened),
    {
        self.state.alert_kind.is_some() || self.rules_opened
    }

    pub fn is_game_over(&self) -> (r: bool)
        ensures
            r == (self.state.alert_kind == Some(AlertKind::GameOver)),
    {
        match self.state.alert_kind {
            Some(AlertKind::GameOver) => true,
            _ => false,
        }
    }

    /// One frame of play: an empty room is dealt anew, then a click on the
    /// hovered card picks it; nothing happens while paused
    pub fn update(&mut self, hovered: Option<usize>, clicked: bool)
        requires
            old(self).state.wf(),
        ensures
            final(self).state.wf(),
            (old(self).state.alert_kind is Some || old(self).rules_opened) ==> final(self).state
                == old(self).state,
    {
        self.hovered_card_idx = None;
        if self.paused() {
            return ;
        }
        if self.state.room_cards == 0 {
            assert(self.state.room@ =~= seq![None::<Card>, None, None, None]);
            self.next_room();
        }
        if let Some(idx) = hovered {
            if idx < ROOM_CARDS && self.state.room[idx].is_some() {
                self.hovered_card_idx = Some(idx);
                if clicked {
                    self.pick_card(idx);
                }
            }
        }
    }
}

/// Health after fighting a monster of grade `grade`: a weapon that slew a
/// stronger monster last takes it without damage, one that did not breaks and
/// the full value hits; a fresh weapon takes its value off the damage
pub open spec fn fought_health(health: u8, weapon: u8, killed: Seq<CardGrade>, grade: CardGrade) -> u8 {
    let value = grade_value(grade) as int;
    let damage = if killed.len() > 0 {
        if value < grade_value(killed.last()) {
            0
        } else {
            value
        }
    } else if value > weapon {
        value - weapon
    } else {
        0
    };
    if health > damage {
        (health - damage) as u8
    } else {
        0
    }
}

} // verus!
