use vstd::prelude::*;

verus! {

/// What a queen bee produces.
#[derive(Debug, Clone, Copy, PartialEq, Eq, Structural)]
pub enum BeeType {
    Honey,
    Rock,
}

impl Default for BeeType {
    fn default() -> (r: BeeType)
        ensures
            r == BeeType::Honey,
    {
        BeeType::Honey
    }
}

/// A producer that can be assigned to a hive; immutable once built.
#[derive(Debug, PartialEq, Eq, Structural)]
pub struct QueenBee {
    harvest_rate: i8,
    bee_type: BeeType,
}

impl QueenBee {
    /// The harvest rate this queen was built with.
    pub closed spec fn rate(&self) -> i8 {
        self.harvest_rate
    }

    /// The kind of queen this is.
    pub closed spec fn kind(&self) -> BeeType {
        self.bee_type
    }

    pub fn new(harvest_rate: i8, bee_type: BeeType) -> (r: QueenBee)
        ensures
            r.rate() == harvest_rate,
            r.kind() == bee_type,
    {
        QueenBee { harvest_rate, bee_type }
    }

    pub fn harvest_rate(&self) -> (r: i8)
        ensures
            r == self.rate(),
    {
        self.harvest_rate
    }

    pub fn bee_type(&self) -> (r: BeeType)
        ensures
            r == self.kind(),
    {
        self.bee_type
    }
}


/// A hive: holds at most one queen and a bee count.
#[derive(Debug)]
pub struct BeeHive {
    queen_bee: Option<QueenBee>,
    total_bees: i32,
}

impl BeeHive {
    /// The queen currently in this hive, if any.
    pub closed spec fn queen(&self) -> Option<QueenBee> {
        self.queen_bee
    }

    /// The number of bees in this hive.
    pub closed spec fn bees(&self) -> int {
        self.total_bees as int
    }

    /// A fresh hive: no queen and no bees.
    pub open spec fn is_empty_hive(&self) -> bool {
        self.queen() is None && self.bees() == 0
    }

    /// Puts `queen_bee` in the hive, replacing any queen it held.
    pub fn set_queen_bee(&mut self, queen_bee: QueenBee)
        ensures
            final(self).queen() == Some(queen_bee),
            final(self).bees() == old(self).bees(),
    {
        self.queen_bee = Some(queen_bee);
    }

    pub fn queen_bee(&self) -> (r: Option<&QueenBee>)
        ensures
            r matches Some(q) ==> self.queen() == Some(*q),
            r is None <==> self.queen() is None,
    {
        self.queen_bee.as_ref()
    }

    pub fn total_bees(&self) -> (r: i32)
        ensures
            r == self.bees(),
    {
        self.total_bees
    }
}

/// The ways an operation on a game can fail; the game is left unchanged.
#[derive(Debug, Clone, Copy, PartialEq, Eq, Structural)]
pub enum GameError {
    /// A spend asked for more honey than the balance holds.
    NotEnoughHoney,
    /// No hive stands at the given index.
    HiveNotFound,
    /// The new balance would fall outside `0..=i32::MAX`.
    HoneyOverflow,
}

/// The text shown for each error.
pub open spec fn error_message(e: GameError) -> Seq<char> {
    match e {
        GameError::NotEnoughHoney => "Not enough honey!"@,
        GameError::HiveNotFound => "Hive does not exist"@,
        GameError::HoneyOverflow => "Honey balance out of range"@,
    }
}

impl GameError {
    /// The text shown to the player for this error.
    pub fn message(&self) -> (r: String)
        ensures
            r@ == error_message(*self),
    {
        match self {
            GameError::NotEnoughHoney => "Not enough honey!".to_string(),
            GameError::HiveNotFound => "Hive does not exist".to_string(),
            GameError::HoneyOverflow => "Honey balance out of range".to_string(),
        }
    }
}

/// The price of one beehive, in honey.
pub const BEEHIVE_PRICE: i32 = 10;

/// The text returned after a beehive was bought.
pub open spec fn bought_message() -> Seq<char> {
    "Bought a beehive"@
}

/// Whether `h` can stand as a honey balance.
pub open spec fn valid_balance(h: int) -> bool {
    0 <= h <= i32::MAX
}

/// The balance after crediting `amount` to `h`: the sum where it is a
/// valid balance, else `h` unchanged.
pub open spec fn credited(h: int, amount: int) -> int {
    if valid_balance(h + amount) {
        h + amount
    } else {
        h
    }
}

impl Default for Game {
    /// An empty game: no honey and no hives.
    fn default() -> (r: Game)
        ensures
            r.wf(),
            r.honey() == 0,
            r.hives().len() == 0,
    {
        Game { total_honey: 0, beehives: Vec::new(), queen_bees: Vec::new() }
    }
}

/// Whether the order of two credits `a` and `b` on balance `h` shows in the
/// result: both single credits fit but their sum does not, so each order
/// keeps only its first credit and the two differ unless `a == b`; or exactly
/// one single credit fits and the sum fits too, so one order reaches the sum
/// and the other is refused at its first step and keeps only the second.
pub open spec fn credit_order_matters(h: int, a: int, b: int) -> bool {
    ||| valid_balance(h + a) && valid_balance(h + b) && !valid_balance(h + a + b) && a != b
    ||| valid_balance(h + a) != valid_balance(h + b) && valid_balance(h + a + b)
}

/// Crediting `a` then `b` leaves the same balance as crediting `b` then `a`,
/// exactly when the order does not matter in the sense of
/// `credit_order_matters`; in particular whenever every step fits.
pub proof fn lemma_credit_commutes(h: int, a: int, b: int)
    requires
        valid_balance(h),
    ensures
        (credited(credited(h, a), b) == credited(credited(h, b), a)) <==> !credit_order_matters(
            h,
            a,
            b,
        ),
        valid_balance(h + a + b) && valid_balance(h + a) && valid_balance(h + b) ==> credited(
            credited(h, a),
            b,
        ) == h + a + b && credited(credited(h, b), a) == h + a + b,
{
}

/// The player's ledger: a honey balance and the hives bought with it.
pub struct Game {
    total_honey: i32,
    beehives: Vec<BeeHive>,
    /// A catalog of queens on offer; reserved, and never filled or read yet.
    #[allow(dead_code)]
    queen_bees: Vec<QueenBee>,
}

impl Game {
    /// The honey balance.
    pub closed spec fn honey(&self) -> int {
        self.total_honey as int
    }

    /// The hives, in the order they were bought.
    pub closed spec fn hives(&self) -> Seq<BeeHive> {
        self.beehives@
    }

    /// The balance never goes negative.
    pub open spec fn wf(&self) -> bool {
        valid_balance(self.honey())
    }

    /// Adds `honey_to_add` to the balance. Fails, leaving the game
    /// unchanged, where the new balance would not be valid.
    pub fn add_honey(&mut self, honey_to_add: i32) -> (r: Result<(), GameError>)
        requires
            old(self).wf(),
        ensures
            final(self).wf(),
            final(self).hives() == old(self).hives(),
            final(self).honey() == credited(old(self).honey(), honey_to_add as int),
            r is Ok <==> valid_balance(old(self).honey() + honey_to_add),
            r is Err ==> r == Err::<(), GameError>(GameError::HoneyOverflow),
    {
        match self.total_honey.checked_add(honey_to_add) {
            Some(h) => {
                if h < 0 {
                    return Err(GameError::HoneyOverflow);
                }
                self.total_honey = h;
                Ok(())
            },
            None => Err(GameError::HoneyOverflow),
        }
    }

    /// Takes `honey_to_remove` from the balance. Fails with
    /// `NotEnoughHoney` where it exceeds the balance, and with
    /// `HoneyOverflow` where a negative amount would push the balance past
    /// `i32::MAX`; on failure the game is unchanged.
    pub fn remove_honey(&mut self, honey_to_remove: i32) -> (r: Result<(), GameError>)
        requires
            old(self).wf(),
        ensures
            final(self).wf(),
            final(self).hives() == old(self).hives(),
            old(self).honey() < honey_to_remove ==> r == Err::<(), GameError>(
                GameError::NotEnoughHoney,
            ),
            honey_to_remove <= old(self).honey() && old(self).honey() - honey_to_remove
                > i32::MAX ==> r == Err::<(), GameError>(GameError::HoneyOverflow),
            0 <= honey_to_remove <= old(self).honey() ==> r is Ok,
            r is Ok <==> honey_to_remove <= old(self).honey() && valid_balance(
                old(self).honey() - honey_to_remove,
            ),
            r is Ok ==> final(self).honey() == old(self).honey() - honey_to_remove,
            r is Err ==> final(self).honey() == old(self).honey(),
    {
        if self.total_honey < honey_to_remove {
            return Err(GameError::NotEnoughHoney);
        }
        match self.total_honey.checked_sub(honey_to_remove) {
            Some(h) => {
                self.total_honey = h;
                Ok(())
            },
            None => Err(GameError::HoneyOverflow),
        }
    }

    pub fn get_total_honey(&self) -> (r: i32)
        ensures
            r == self.honey(),
    {
        self.total_honey
    }

    /// The hives, read-only.
    pub fn get_all_beehives(&self) -> (r: &Vec<BeeHive>)
        ensures
            r@ == self.hives(),
    {
        &self.beehives
    }

    /// Buys one hive for `BEEHIVE_PRICE` honey and says how it went: on
    /// success a fresh hive is appended and the balance drops by the price;
    /// without enough honey the game is unchanged and the spend's error text
    /// comes back.
    pub fn buy_beehive(&mut self) -> (r: String)
        requires
            old(self).wf(),
        ensures
            final(self).wf(),
            old(self).honey() >= BEEHIVE_PRICE ==> {
                &&& final(self).honey() == old(self).honey() - BEEHIVE_PRICE
                &&& final(self).hives().len() == old(self).hives().len() + 1
                &&& final(self).hives().drop_last() == old(self).hives()
                &&& final(self).hives().last().is_empty_hive()
                &&& r@ == bought_message()
            },
            old(self).honey() < BEEHIVE_PRICE ==> {
                &&& final(self).honey() == old(self).honey()
                &&& final(self).hives() == old(self).hives()
                &&& r@ == error_message(GameError::NotEnoughHoney)
            },
    {
        match self.remove_honey(BEEHIVE_PRICE) {
            Err(e) => e.message(),
            Ok(()) => {
                self.add_beehive();
                "Bought a beehive".to_string()
            },
        }
    }

    /// Puts `queen_bee` in the hive at `hive_index`, replacing any queen it
    /// held. Fails with `HiveNotFound`, leaving the game unchanged, where no
    /// hive stands at that index.
    pub fn set_queen_bee(&mut self, queen_bee: QueenBee, hive_index: usize) -> (r: Result<
        (),
        GameError,
    >)
        requires
            old(self).wf(),
        ensures
            final(self).wf(),
            final(self).honey() == old(self).honey(),
            r is Ok <==> hive_index < old(self).hives().len(),
            r is Err ==> r == Err::<(), GameError>(GameError::HiveNotFound),
            r is Err ==> final(self).hives() == old(self).hives(),
            r is Ok ==> {
                &&& final(self).hives().len() == old(self).hives().len()
                &&& final(self).hives()[hive_index as int].queen() == Some(queen_bee)
                &&& final(self).hives()[hive_index as int].bees() == old(
                    self,
                ).hives()[hive_index as int].bees()
                &&& forall|j: int|
                    0 <= j < old(self).hives().len() && j != hive_index ==> final(self).hives()[j]
                        == old(self).hives()[j]
            },
    {
        let num_hives = self.get_all_beehives().len();
        if hive_index >= num_hives {
            return Err(GameError::HiveNotFound);
        }
        self.beehives[hive_index].set_queen_bee(queen_bee);
        Ok(())
    }

    fn add_beehive(&mut self)
        ensures
            final(self).honey() == old(self).honey(),
            final(self).hives().len() == old(self).hives().len() + 1,
            final(self).hives().drop_last() == old(self).hives(),
            final(self).hives().last().is_empty_hive(),
    {
        self.beehives.push(BeeHive { queen_bee: None, total_bees: 0 });
    }
}

} // verus!
