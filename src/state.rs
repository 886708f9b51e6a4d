use vstd::prelude::*;

verus! {

/// A JSON value as the contract state document holds it. Numbers keep their
/// text; an object keeps its members in document order.
pub enum JsonValue {
    Null,
    Bool(bool),
    Number(String),
    Text(String),
    Array(Vec<JsonValue>),
    Object(Vec<(String, JsonValue)>),
}

/// The value of the first member named `key`, as a JSON object lookup gives it.
pub open spec fn member_of(entries: Seq<(String, JsonValue)>, key: Seq<char>) -> Option<JsonValue>
    decreases entries.len(),
{
    if entries.len() == 0 {
        None
    } else if entries[0].0@ == key {
        Some(entries[0].1)
    } else {
        member_of(entries.drop_first(), key)
    }
}

/// The member `key` of an object; `None` for a value that is no object.
pub open spec fn lookup(v: JsonValue, key: Seq<char>) -> Option<JsonValue> {
    match v {
        JsonValue::Object(entries) => member_of(entries@, key),
        _ => None,
    }
}

/// `Closing.outcome.repayment.collateral_repayment_txid` of a document.
pub open spec fn repayment_txid(doc: JsonValue) -> Option<JsonValue> {
    match lookup(doc, "Closing"@) {
        None => None,
        Some(closing) => match lookup(closing, "outcome"@) {
            None => None,
            Some(outcome) => match lookup(outcome, "repayment"@) {
                None => None,
                Some(repayment) => lookup(repayment, "collateral_repayment_txid"@),
            },
        },
    }
}

/// What the state document says of the loan.
#[derive(Debug, Clone, Copy, PartialEq, Eq, Structural)]
pub enum StateVerdict {
    /// A top-level `Closed` member is present.
    Closed,
    /// The loan is closing and the collateral repayment transaction is recorded.
    RepaymentRecorded,
    /// Neither: the repayment is not confirmed by the document.
    NotRepaid,
}

pub open spec fn verdict_of(doc: JsonValue) -> StateVerdict {
    if lookup(doc, "Closed"@) is Some {
        StateVerdict::Closed
    } else if repayment_txid(doc) is Some {
        StateVerdict::RepaymentRecorded
    } else {
        StateVerdict::NotRepaid
    }
}

impl StateVerdict {
    /// Whether the document confirms that the loan was repaid.
    pub fn is_verified(&self) -> (r: bool)
        ensures
            r == (*self != StateVerdict::NotRepaid),
    {
        match self {
            StateVerdict::NotRepaid => false,
            _ => true,
        }
    }
}

impl JsonValue {
    /// The member `key` of this value, where it is an object that has one.
    pub fn get(&self, key: &String) -> (r: Option<&JsonValue>)
        ensures
            r matches Some(v) ==> lookup(*self, key@) == Some(*v),
            r is None ==> lookup(*self, key@) is None,
    {
        match *self {
            JsonValue::Object(ref entries) => {
                let mut i: usize = 0;
                assert(entries@.subrange(0, entries@.len() as int) =~= entries@);
                while i < entries.len()
                    invariant
                        i <= entries@.len(),
                        lookup(*self, key@) == member_of(entries@, key@),
                        member_of(entries@, key@) == member_of(
                            entries@.subrange(i as int, entries@.len() as int),
                            key@,
                        ),
                    decreases entries@.len() - i,
                {
                    assert(entries@.subrange(i as int, entries@.len() as int).drop_first()
                        =~= entries@.subrange(i + 1, entries@.len() as int));
                    let entry = &entries[i];
                    if entry.0 == *key {
                        assert(entries@.subrange(i as int, entries@.len() as int)[0] == entries@[i as int]);
                        return Some(&entry.1);
                    }
                    i = i + 1;
                }
                None
            },
            _ => None,
        }
    }
}

/// Reads the contract state document: `Closed` where it has a top-level
/// `Closed` member, else `RepaymentRecorded` where it has
/// `Closing.outcome.repayment.collateral_repayment_txid`, else `NotRepaid`.
pub fn verify_contract_state(doc: &JsonValue) -> (r: StateVerdict)
    ensures
        r == verdict_of(*doc),
{
    let closed = String::from_str("Closed");
    if doc.get(&closed).is_some() {
        return StateVerdict::Closed;
    }
    let closing = String::from_str("Closing");
    let outcome = String::from_str("outcome");
    let repayment = String::from_str("repayment");
    let txid = String::from_str("collateral_repayment_txid");
    let found = match doc.get(&closing) {
        None => false,
        Some(c) => match c.get(&outcome) {
            None => false,
            Some(o) => match o.get(&repayment) {
                None => false,
                Some(p) => p.get(&txid).is_some(),
            },
        },
    };
    if found {
        StateVerdict::RepaymentRecorded
    } else {
        StateVerdict::NotRepaid
    }
}

/// Verification succeeds exactly where the document has a top-level `Closed`
/// member or a recorded collateral repayment transaction.
pub proof fn verification_succeeds_iff_marker_present(doc: JsonValue, r: StateVerdict)
    requires
        r == verdict_of(doc),
    ensures
        r != StateVerdict::NotRepaid <==> (lookup(doc, "Closed"@) is Some || repayment_txid(doc) is Some),
        lookup(doc, "Closed"@) is Some ==> r == StateVerdict::Closed,
{
}

} // verus!
