//! The game server's decisions on the pings it receives.
use vstd::prelude::*;
use crate::common::Ping;

verus! {

/// Pings the server answers before it stops the system.
pub const MAX_PINGS: usize = 10;

/// Delay, in nanoseconds, before a reply is sent.
pub const REPLY_DELAY_NANOS: u32 = 100;

/// What the server does after receiving a ping.
#[derive(Clone, Copy, Debug, PartialEq, Eq)]
pub enum GameAction {
    /// Stop the whole actor system.
    Stop,
    /// Send `ping` back after `delay_nanos` nanoseconds.
    SendLater { ping: Ping, delay_nanos: u32 },
}

/// The action for the ping with number `id` when `counter` pings came before it.
pub open spec fn reply_to(counter: int, id: int) -> GameAction {
    if counter + 1 > MAX_PINGS {
        GameAction::Stop
    } else {
        GameAction::SendLater { ping: Ping { id: (id + 1) as usize }, delay_nanos: REPLY_DELAY_NANOS }
    }
}

/// The actions of a server with `counter` pings behind it that is fed `k`
/// pings, the first numbered `id` and each later one the reply to the one
/// before, until it stops.
pub open spec fn conversation(counter: int, id: int, k: nat) -> Seq<GameAction>
    decreases k,
{
    if k == 0 {
        Seq::empty()
    } else {
        let a = reply_to(counter, id);
        match a {
            GameAction::Stop => seq![a],
            GameAction::SendLater { ping, .. } => seq![a] + conversation(counter + 1, ping.id as int, (k - 1) as nat),
        }
    }
}

/// The game server's state: how many pings it has received.
pub struct Game {
    counter: usize,
}

impl Game {
    /// A server that has received nothing yet.
    pub fn new() -> (g: Game)
        ensures
            g.received() == 0,
    {
        Game { counter: 0 }
    }

    pub closed spec fn received(&self) -> nat {
        self.counter as nat
    }

    /// Pings received so far.
    pub fn counter(&self) -> (c: usize)
        ensures
            c == self.received(),
    {
        self.counter
    }

    /// Counts the ping; stops the system once more than `MAX_PINGS` pings came
    /// in, and otherwise answers with the next number after a short delay.
    pub fn handle(&mut self, msg: Ping) -> (action: GameAction)
        requires
            old(self).received() < usize::MAX,
            old(self).received() + 1 <= MAX_PINGS ==> msg.id < usize::MAX,
        ensures
            final(self).received() == old(self).received() + 1,
            action == reply_to(old(self).received() as int, msg.id as int),
    {
        self.counter = self.counter + 1;
        if self.counter > MAX_PINGS {
            GameAction::Stop
        } else {
            GameAction::SendLater { ping: Ping { id: msg.id + 1 }, delay_nanos: REPLY_DELAY_NANOS }
        }
    }
}

/// A server with `c` pings behind it (at most `MAX_PINGS`), fed its own
/// replies, answers `MAX_PINGS - c` more pings with the numbers that follow
/// the first one, one by one, and then stops.
pub proof fn lemma_conversation(c: int, id: int)
    requires
        0 <= c <= MAX_PINGS,
        0 <= id,
        id + MAX_PINGS - c <= usize::MAX,
    ensures
        ({
            let s = conversation(c, id, (MAX_PINGS - c + 1) as nat);
            &&& s.len() == MAX_PINGS - c + 1
            &&& forall|j: int| 0 <= j < MAX_PINGS - c ==> s[j] == (GameAction::SendLater {
                ping: Ping { id: (id + j + 1) as usize },
                delay_nanos: REPLY_DELAY_NANOS,
            })
            &&& s[MAX_PINGS - c] == GameAction::Stop
        }),
    decreases MAX_PINGS - c,
{
    let s = conversation(c, id, (MAX_PINGS - c + 1) as nat);
    if c == MAX_PINGS {
        assert(s =~= seq![GameAction::Stop]);
    } else {
        lemma_conversation(c + 1, id + 1);
        let rest = conversation(c + 1, id + 1, (MAX_PINGS - c) as nat);
        let first = GameAction::SendLater { ping: Ping { id: (id + 1) as usize }, delay_nanos: REPLY_DELAY_NANOS };
        assert(s =~= seq![first] + rest);
        assert forall|j: int| 0 <= j < MAX_PINGS - c implies s[j] == (GameAction::SendLater {
            ping: Ping { id: (id + j + 1) as usize },
            delay_nanos: REPLY_DELAY_NANOS,
        }) by {
            if j > 0 {
                assert(s[j] == rest[j - 1]);
            }
        }
    }
}

/// A fresh server fed its own replies answers ten pings, each with the number
/// after the one it received, and stops the system at the eleventh.
pub proof fn lemma_fresh_game_answers_ten(id: int)
    requires
        0 <= id,
        id + MAX_PINGS <= usize::MAX,
    ensures
        ({
            let s = conversation(0, id, (MAX_PINGS + 1) as nat);
            &&& s.len() == MAX_PINGS + 1
            &&& forall|j: int| 0 <= j < MAX_PINGS ==> s[j] == (GameAction::SendLater {
                ping: Ping { id: (id + j + 1) as usize },
                delay_nanos: REPLY_DELAY_NANOS,
            })
            &&& s[MAX_PINGS as int] == GameAction::Stop
        }),
{
    lemma_conversation(0, id);
}

/// The server stops the system exactly when the ping it receives has more
/// than `MAX_PINGS` pings before it, counting itself, for every count and
/// every number; below that it answers with the next number after
/// `REPLY_DELAY_NANOS`; and once it has stopped it stops at every later
/// ping, whatever its number.
pub proof fn lemma_reply_rule(c: int, id: int, later_id: int)
    requires
        0 <= c,
        0 <= id < usize::MAX,
    ensures
        (reply_to(c, id) == GameAction::Stop) <==> c >= MAX_PINGS,
        c < MAX_PINGS ==> reply_to(c, id) == (GameAction::SendLater {
            ping: Ping { id: (id + 1) as usize },
            delay_nanos: 100,
        }),
        reply_to(c, id) == GameAction::Stop ==> reply_to(c + 1, later_id) == GameAction::Stop,
{
}

} // verus!
