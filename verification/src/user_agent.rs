//! The pool of browser signatures and the policy that picks one.

use crate::text::same_text;
use vstd::prelude::*;

verus! {

pub const AGENT_0: &'static str =
    "Mozilla/5.0 (iPhone; CPU iPhone OS 9_1 like Mac OS X) AppleWebKit/601.1.46 (KHTML, like Gecko) Version/9.0 Mobile/13B143 Safari/601.1";

pub const AGENT_1: &'static str =
    "Mozilla/5.0 (iPhone; CPU iPhone OS 9_1 like Mac OS X) AppleWebKit/601.1.46 (KHTML, like Gecko) Version/9.0 Mobile/13B143 Safari/601.1";

pub const AGENT_2: &'static str =
    "Mozilla/5.0 (Linux; Android 5.0; SM-G900P Build/LRX21T) AppleWebKit/537.36 (KHTML, like Gecko) Chrome/59.0.3071.115 Mobile Safari/537.36";

pub const AGENT_3: &'static str =
    "Mozilla/5.0 (Linux; Android 6.0; Nexus 5 Build/MRA58N) AppleWebKit/537.36 (KHTML, like Gecko) Chrome/59.0.3071.115 Mobile Safari/537.36";

pub const AGENT_4: &'static str =
    "Mozilla/5.0 (Linux; Android 5.1.1; Nexus 6 Build/LYZ28E) AppleWebKit/537.36 (KHTML, like Gecko) Chrome/59.0.3071.115 Mobile Safari/537.36";

pub const AGENT_5: &'static str =
    "Mozilla/5.0 (iPhone; CPU iPhone OS 10_3_2 like Mac OS X) AppleWebKit/603.2.4 (KHTML, like Gecko) Mobile/14F89;GameHelper";

pub const AGENT_6: &'static str =
    "Mozilla/5.0 (iPhone; CPU iPhone OS 10_0 like Mac OS X) AppleWebKit/602.1.38 (KHTML, like Gecko) Version/10.0 Mobile/14A300 Safari/602.1";

pub const AGENT_7: &'static str =
    "Mozilla/5.0 (iPad; CPU OS 10_0 like Mac OS X) AppleWebKit/602.1.38 (KHTML, like Gecko) Version/10.0 Mobile/14A300 Safari/602.1";

pub const AGENT_8: &'static str =
    "Mozilla/5.0 (Macintosh; Intel Mac OS X 10.12; rv:46.0) Gecko/20100101 Firefox/46.0";

pub const AGENT_9: &'static str =
    "Mozilla/5.0 (Macintosh; Intel Mac OS X 10_12_5) AppleWebKit/537.36 (KHTML, like Gecko) Chrome/59.0.3071.115 Safari/537.36";

pub const AGENT_10: &'static str =
    "Mozilla/5.0 (Macintosh; Intel Mac OS X 10_12_5) AppleWebKit/603.2.4 (KHTML, like Gecko) Version/10.1.1 Safari/603.2.4";

pub const AGENT_11: &'static str =
    "Mozilla/5.0 (Windows NT 10.0; Win64; x64; rv:46.0) Gecko/20100101 Firefox/46.0";

pub const AGENT_12: &'static str =
    "Mozilla/5.0 (Windows NT 10.0; Win64; x64) AppleWebKit/537.36 (KHTML, like Gecko) Chrome/51.0.2704.103 Safari/537.36";

pub const AGENT_13: &'static str =
    "Mozilla/5.0 (Windows NT 10.0; Win64; x64) AppleWebKit/537.36 (KHTML, like Gecko) Chrome/42.0.2311.135 Safari/537.36 Edge/13.1058";

/// How many signatures the pool holds.
pub const POOL_SIZE: usize = 14;

/// The mobile signatures are the first `MOBILE_COUNT` entries of the pool.
pub const MOBILE_COUNT: usize = 7;

/// The desktop signatures start at this entry of the pool.
pub const DESKTOP_START: usize = 8;

/// How many desktop signatures there are.
pub const DESKTOP_COUNT: usize = 5;

/// The pool of browser signatures, in its fixed order.
pub open spec fn pool() -> Seq<Seq<char>> {
    seq![
        AGENT_0@,
        AGENT_1@,
        AGENT_2@,
        AGENT_3@,
        AGENT_4@,
        AGENT_5@,
        AGENT_6@,
        AGENT_7@,
        AGENT_8@,
        AGENT_9@,
        AGENT_10@,
        AGENT_11@,
        AGENT_12@,
        AGENT_13@,
    ]
}

/// `agent` is one of the pool's entries from `from` up to, not including, `to`.
pub open spec fn in_pool(agent: Seq<char>, from: int, to: int) -> bool {
    exists|i: int| from <= i < to && i < POOL_SIZE && agent == #[trigger] pool()[i]
}

/// The signature that a hint and a drawn number select.
///
/// `"mobile"` selects among the mobile entries, `"desktop"` among the
/// desktop entries and the empty hint among all of them, each by the
/// remainder of `draw`. Any other hint is itself the signature.
pub open spec fn selected_agent(hint: Seq<char>, draw: nat) -> Seq<char> {
    if hint == "mobile"@ {
        pool()[(draw % (MOBILE_COUNT as nat)) as int]
    } else if hint == "desktop"@ {
        pool()[(DESKTOP_START + draw % (DESKTOP_COUNT as nat)) as int]
    } else if hint.len() == 0 {
        pool()[(draw % (POOL_SIZE as nat)) as int]
    } else {
        hint
    }
}

/// The pool's entry at `index`.
pub fn pool_entry(index: usize) -> (agent: &'static str)
    requires
        index < POOL_SIZE,
    ensures
        agent@ == pool()[index as int],
{
    if index == 0 {
        AGENT_0
    } else if index == 1 {
        AGENT_1
    } else if index == 2 {
        AGENT_2
    } else if index == 3 {
        AGENT_3
    } else if index == 4 {
        AGENT_4
    } else if index == 5 {
        AGENT_5
    } else if index == 6 {
        AGENT_6
    } else if index == 7 {
        AGENT_7
    } else if index == 8 {
        AGENT_8
    } else if index == 9 {
        AGENT_9
    } else if index == 10 {
        AGENT_10
    } else if index == 11 {
        AGENT_11
    } else if index == 12 {
        AGENT_12
    } else {
        AGENT_13
    }
}

/// Picks the signature for `hint`, given the number that was drawn.
pub fn select_user_agent<'a>(hint: &'a str, draw: usize) -> (agent: &'a str)
    ensures
        agent@ == selected_agent(hint@, draw as nat),
{
    if same_text(hint, "mobile") {
        pool_entry(draw % MOBILE_COUNT)
    } else if same_text(hint, "desktop") {
        pool_entry(DESKTOP_START + draw % DESKTOP_COUNT)
    } else if hint.is_empty() {
        pool_entry(draw % POOL_SIZE)
    } else {
        hint
    }
}

/// `rand::random::<usize>()`: a number from the thread's generator. Nothing
/// is claimed of its value.
#[verifier::external_body]
fn random_index() -> usize {
    rand::random::<usize>()
}

/// Picks a browser signature for `hint`, drawing at random where the hint
/// names a group.
///
/// Whatever number is drawn, `"mobile"` gives one of the mobile entries,
/// `"desktop"` one of the desktop entries, the empty hint one of the whole
/// pool, and any other hint comes back unchanged.
pub fn choose_user_agent<'a>(hint: &'a str) -> (agent: &'a str)
    ensures
        exists|draw: nat| agent@ == #[trigger] selected_agent(hint@, draw),
        hint@ == "mobile"@ ==> in_pool(agent@, 0, MOBILE_COUNT as int),
        hint@ == "desktop"@ ==> in_pool(
            agent@,
            DESKTOP_START as int,
            DESKTOP_START + DESKTOP_COUNT,
        ),
        hint@.len() == 0 ==> in_pool(agent@, 0, POOL_SIZE as int),
        hint@ != "mobile"@ && hint@ != "desktop"@ && hint@.len() != 0 ==> agent@ == hint@,
{
    let draw = random_index();
    let agent = select_user_agent(hint, draw);
    proof {
        reveal_strlit("mobile");
        reveal_strlit("desktop");
        let d = draw as nat;
        assert("mobile"@.len() == 6 && "desktop"@.len() == 7);
        if hint@ == "mobile"@ {
            assert(agent@ == pool()[(d % 7) as int]);
        } else if hint@ == "desktop"@ {
            let i = (8 + d % 5) as int;
            assert(agent@ == pool()[i]);
            assert(in_pool(agent@, 8, 13));
        } else if hint@.len() == 0 {
            assert(agent@ == pool()[(d % 14) as int]);
        }
    }
    agent
}

} // verus!
