//! Playing cards for the card games: a card is a number from 0 to 51, thirteen ranks
//! in each of four suits.

use crate::text::{decimal, decimal_string, join, joined};
use vstd::prelude::*;
use vstd::string::StringExecFns;

verus! {

/// The suits, in the order in which a deck holds them: spades, diamonds, hearts, clubs.
pub open spec fn suits() -> Seq<char> {
    seq!['S', 'D', 'H', 'C']
}

/// The remainder of `card` by thirteen, with the sign of `card`.
pub open spec fn rank_of(card: int) -> int {
    if card >= 0 {
        card % 13
    } else {
        -((-card) % 13)
    }
}

/// What the rank `card` shows on its face: `A` for rank 0, `J`, `Q` and `K` for ranks
/// 10 to 12, and the rank's own number between them.
pub open spec fn face_of(card: int) -> Seq<char> {
    if card == 0 {
        seq!['A']
    } else if card == 10 {
        seq!['J']
    } else if card == 11 {
        seq!['Q']
    } else if card == 12 {
        seq!['K']
    } else {
        decimal(card as nat)
    }
}

/// What a card counts for: one more than its rank, and ten at most.
pub open spec fn value_of(card: int) -> int {
    if rank_of(card) + 1 < 10 {
        rank_of(card) + 1
    } else {
        10
    }
}

/// The face of a rank.
pub fn card_face(card: i8) -> (face: String)
    requires
        0 <= card <= 12,
    ensures
        face@ == face_of(card as int),
{
    proof {
        reveal_strlit("A");
        reveal_strlit("J");
        reveal_strlit("Q");
        reveal_strlit("K");
    }
    let face = match card {
        0 => String::from_str("A"),
        10 => String::from_str("J"),
        11 => String::from_str("Q"),
        12 => String::from_str("K"),
        _ => decimal_string(card as u64),
    };
    assert(face@ =~= face_of(card as int));
    face
}

/// The value of a card.
pub fn card_val(card: i8) -> (value: i8)
    ensures
        value == value_of(card as int),
{
    let rank: i8 = card % 13;
    if rank + 1 < 10 {
        rank + 1
    } else {
        10
    }
}

/// The suit of a card.
pub fn card_suit(card: i8) -> (suit: char)
    requires
        0 <= card < 52,
    ensures
        suit == suits()[card as int / 13],
{
    let suit = card / 13;
    if suit == 0 {
        'S'
    } else if suit == 1 {
        'D'
    } else if suit == 2 {
        'H'
    } else {
        'C'
    }
}

/// How many cards one run of a fresh deck holds.
pub const RUN: i8 = 51;

/// The cards of a fresh deck before it is shuffled: the numbers from 0 up to, but not
/// including, 51, twice over.
pub open spec fn fresh_deck() -> Seq<i8> {
    Seq::new(2 * RUN as nat, |i: int| (i % (RUN as int)) as i8)
}

/// Lays out a fresh deck.
pub fn new_deck() -> (deck: Vec<i8>)
    ensures
        deck@ == fresh_deck(),
{
    let mut deck: Vec<i8> = Vec::new();
    let mut run: u8 = 0;
    while run < 2
        invariant
            run <= 2,
            deck.len() == run * RUN,
            forall|i: int| 0 <= i < deck.len() ==> #[trigger] deck[i] == (i % (RUN as int)) as i8,
        decreases 2 - run,
    {
        let mut card: i8 = 0;
        while card < RUN
            invariant
                run < 2,
                0 <= card <= RUN,
                deck.len() == run * RUN + card,
                forall|i: int|
                    0 <= i < deck.len() ==> #[trigger] deck[i] == (i % (RUN as int)) as i8,
            decreases RUN - card,
        {
            deck.push(card);
            card = card + 1;
        }
        run = run + 1;
    }
    assert(deck@ =~= fresh_deck());
    deck
}

/// A mention of the member `user_id`.
pub open spec fn mention_text(user_id: u64) -> Seq<char> {
    "<@!"@ + decimal(user_id as nat) + seq!['>']
}

/// Writes a mention of a member.
pub fn mention(user_id: u64) -> (text: String)
    ensures
        text@ == mention_text(user_id),
{
    proof {
        reveal_strlit(">");
    }
    let mut text = String::from_str("<@!");
    text.append(decimal_string(user_id).as_str());
    text.append(">");
    assert(">"@ =~= seq!['>']);
    text
}

/// Announces the game that `user_id` started.
pub fn announcement(user_id: u64) -> (text: String)
    ensures
        text@ == mention_text(user_id) + " has started a new blackjack game!"@,
{
    let mut text = mention(user_id);
    text.append(" has started a new blackjack game!");
    text
}

/// The members at the table, each once, in the order in which they joined.
pub struct Players {
    joined: Vec<u64>,
}

impl View for Players {
    type V = Seq<u64>;

    closed spec fn view(&self) -> Seq<u64> {
        self.joined@
    }
}

impl Players {
    /// No member is listed twice.
    pub open spec fn wf(&self) -> bool {
        self@.no_duplicates()
    }

    /// The table at which only the member who started the game sits.
    pub fn new(host: u64) -> (players: Players)
        ensures
            players.wf(),
            players@ == seq![host],
    {
        let mut joined: Vec<u64> = Vec::new();
        joined.push(host);
        Players { joined }
    }

    /// Whether `user_id` sits at the table.
    pub fn contains(&self, user_id: u64) -> (b: bool)
        ensures
            b == self@.contains(user_id),
    {
        let mut i: usize = 0;
        while i < self.joined.len()
            invariant
                i <= self.joined.len(),
                forall|k: int| 0 <= k < i ==> self.joined[k] != user_id,
            decreases self.joined.len() - i,
        {
            if self.joined[i] == user_id {
                return true;
            }
            i = i + 1;
        }
        false
    }

    /// Seats `user_id`, unless they sit at the table already. Says whether they were
    /// seated now.
    pub fn insert(&mut self, user_id: u64) -> (seated: bool)
        requires
            old(self).wf(),
        ensures
            final(self).wf(),
            seated == !old(self)@.contains(user_id),
            final(self)@ == if seated {
                old(self)@.push(user_id)
            } else {
                old(self)@
            },
    {
        if self.contains(user_id) {
            false
        } else {
            self.joined.push(user_id);
            true
        }
    }

    /// The members at the table.
    pub fn len(&self) -> (n: usize)
        ensures
            n == self@.len(),
    {
        self.joined.len()
    }

    /// The mentions of the members at the table, separated by spaces.
    pub fn mentions(&self) -> (text: String)
        ensures
            text@ == joined(self@.map_values(|id: u64| mention_text(id)), seq![' ']),
    {
        proof {
            reveal_strlit(" ");
        }
        let ghost expected = self@.map_values(|id: u64| mention_text(id));
        let mut parts: Vec<String> = Vec::new();
        let mut i: usize = 0;
        while i < self.joined.len()
            invariant
                i <= self.joined.len(),
                expected == self@.map_values(|id: u64| mention_text(id)),
                parts.len() == i,
                forall|k: int| 0 <= k < i ==> (#[trigger] parts[k])@ == expected[k],
            decreases self.joined.len() - i,
        {
            parts.push(mention(self.joined[i]));
            i = i + 1;
        }
        assert(parts.deep_view() =~= expected) by {
            assert forall|k: int| 0 <= k < parts.len() implies parts.deep_view()[k]
                == expected[k] by {
                assert(parts.deep_view()[k] == parts[k]@);
            }
        }
        assert(" "@ =~= seq![' ']);
        join(&parts, " ")
    }
}

} // verus!
