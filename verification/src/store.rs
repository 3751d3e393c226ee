//! The authoritative in-memory ticket collection: drafts go in, stored
//! tickets with a fresh identifier come out.  Identifiers are assigned
//! sequentially, so a ticket's identifier is its position in insertion
//! order.

use vstd::prelude::*;
use crate::ticket::construction_error;
use crate::ticket::valid_description;
use crate::ticket::valid_title;
use crate::ticket::TicketError;

verus! {

/// Opaque ticket identifier, assigned by the store at insertion time.
#[derive(Clone, Copy, Debug, PartialEq, Eq, Hash, Structural)]
pub struct TicketId(u64);

impl View for TicketId {
    type V = u64;

    closed spec fn view(&self) -> u64 {
        self.0
    }
}

/// Mathematical image of a `TicketDraft`.
pub struct TicketDraftView {
    pub title: Seq<char>,
    pub description: Seq<char>,
}

/// Proposed ticket content, not yet assigned an identifier.  A draft can
/// only be built through `TicketDraft::new`, so its title and description
/// are always within bounds.
pub struct TicketDraft {
    title: String,
    description: String,
}

impl View for TicketDraft {
    type V = TicketDraftView;

    closed spec fn view(&self) -> TicketDraftView {
        TicketDraftView { title: self.title@, description: self.description@ }
    }
}

impl TicketDraft {
    #[verifier::type_invariant]
    spec fn inv(self) -> bool {
        valid_title(self.title@) && valid_description(self.description@)
    }

    /// Validating constructor, with the same rules and error precedence as
    /// `Ticket::new`.
    pub fn new(title: String, description: String) -> (r: Result<TicketDraft, TicketError>)
        ensures
            r is Ok <==> valid_title(title@) && valid_description(description@),
            r matches Ok(d) ==> d@ == (TicketDraftView { title: title@, description: description@ }),
            r matches Err(e) ==> e == construction_error(title@, description@),
    {
        let title_bytes = title.as_str().as_bytes().len();
        if title_bytes == 0 {
            return Err(TicketError::EmptyTitle);
        }
        if title_bytes > 50 {
            return Err(TicketError::TitleTooLong);
        }
        let description_bytes = description.as_str().as_bytes().len();
        if description_bytes == 0 {
            return Err(TicketError::EmptyDescription);
        }
        if description_bytes > 500 {
            return Err(TicketError::DescriptionTooLong);
        }
        Ok(TicketDraft { title, description })
    }

    pub fn title(&self) -> (r: &String)
        ensures
            r@ == self@.title,
    {
        &self.title
    }

    pub fn description(&self) -> (r: &String)
        ensures
            r@ == self@.description,
    {
        &self.description
    }
}

/// Mathematical image of a `StoredTicket`.
pub struct StoredTicketView {
    pub id: u64,
    pub title: Seq<char>,
    pub description: Seq<char>,
}

/// A persisted ticket: the draft's content together with the identifier the
/// store assigned to it.
pub struct StoredTicket {
    id: TicketId,
    title: String,
    description: String,
}

impl View for StoredTicket {
    type V = StoredTicketView;

    closed spec fn view(&self) -> StoredTicketView {
        StoredTicketView { id: self.id@, title: self.title@, description: self.description@ }
    }
}

impl StoredTicket {
    #[verifier::type_invariant]
    spec fn inv(self) -> bool {
        valid_title(self.title@) && valid_description(self.description@)
    }

    pub fn id(&self) -> (r: TicketId)
        ensures
            r@ == self@.id,
    {
        self.id
    }

    pub fn title(&self) -> (r: &String)
        ensures
            r@ == self@.title,
    {
        &self.title
    }

    pub fn description(&self) -> (r: &String)
        ensures
            r@ == self@.description,
    {
        &self.description
    }
}

impl Clone for StoredTicket {
    fn clone(&self) -> (r: Self)
        ensures
            r@ == self@,
    {
        proof {
            use_type_invariant(&*self);
        }
        StoredTicket {
            id: self.id,
            title: self.title.clone(),
            description: self.description.clone(),
        }
    }
}

/// The record that inserting draft `d` appends to a store whose content is
/// `s`: the draft's content under the next sequential identifier.
pub open spec fn record_for(s: Seq<StoredTicketView>, d: TicketDraftView) -> StoredTicketView {
    StoredTicketView { id: s.len() as u64, title: d.title, description: d.description }
}

/// What a lookup returns on a store whose content is `s`.
pub open spec fn lookup(s: Seq<StoredTicketView>, id: u64) -> Option<StoredTicketView> {
    if id < s.len() {
        Some(s[id as int])
    } else {
        None
    }
}

/// Every stored ticket's identifier is its position in insertion order.
pub open spec fn ids_sequential(s: Seq<StoredTicketView>) -> bool {
    forall|i: int| 0 <= i < s.len() ==> (#[trigger] s[i].id) == i as u64
}

/// The authoritative map from identifier to ticket.  Exactly one thread
/// should own a value of this type; the server loop owns the service's one
/// instance for its whole lifetime.
pub struct TicketStore {
    tickets: Vec<StoredTicket>,
}

impl View for TicketStore {
    type V = Seq<StoredTicketView>;

    closed spec fn view(&self) -> Seq<StoredTicketView> {
        self.tickets@.map(|i: int, t: StoredTicket| t@)
    }
}

impl TicketStore {
    /// Identifiers held by the store are exactly the positions in
    /// insertion order.  Every store value satisfies this invariant, so no
    /// caller has to establish anything before using the store.
    #[verifier::type_invariant]
    pub open spec fn wf(self) -> bool {
        ids_sequential(self@)
    }

    pub fn new() -> (r: TicketStore)
        ensures
            r@ == Seq::<StoredTicketView>::empty(),
    {
        let r = TicketStore { tickets: Vec::new() };
        proof {
            assert(r@ =~= Seq::<StoredTicketView>::empty());
        }
        r
    }

    /// Assigns the next sequential identifier, stores the draft's content
    /// under it, and returns it.  Never fails: the draft is valid by
    /// construction.
    pub fn add_ticket(&mut self, draft: TicketDraft) -> (id: TicketId)
        ensures
            final(self)@ == old(self)@.push(record_for(old(self)@, draft@)),
            id@ == old(self)@.len() as u64,
    {
        proof {
            use_type_invariant(&*self);
            use_type_invariant(&draft);
        }
        let id = TicketId(self.tickets.len() as u64);
        let mut tickets = Vec::new();
        std::mem::swap(&mut tickets, &mut self.tickets);
        let TicketDraft { title, description } = draft;
        tickets.push(StoredTicket { id, title, description });
        proof {
            let prospective = (TicketStore { tickets: tickets })@;
            assert(prospective =~= old(self)@.push(record_for(old(self)@, draft@)));
            assert forall|i: int|
                0 <= i < prospective.len() implies (#[trigger] prospective[i].id) == i as u64 by {
                if i < old(self)@.len() {
                    assert(prospective[i] == old(self)@[i]);
                } else {
                    assert(prospective[i] == record_for(old(self)@, draft@));
                }
            }
        }
        self.tickets = tickets;
        proof {
            assert(self@ =~= old(self)@.push(record_for(old(self)@, draft@)));
        }
        id
    }

    /// Returns the stored ticket with the given identifier, or nothing if
    /// the identifier was never issued by this store.  Never fails.
    pub fn get(&self, id: TicketId) -> (r: Option<&StoredTicket>)
        ensures
            match r {
                Some(t) => lookup(self@, id@) == Some(t@),
                None => lookup(self@, id@) is None,
            },
    {
        let index = id.0;
        if index < self.tickets.len() as u64 {
            Some(&self.tickets[index as usize])
        } else {
            None
        }
    }
}

/// Inserting a draft and then looking up the identifier it was assigned
/// returns a ticket holding exactly the draft's content.
pub proof fn lemma_add_then_get(s: Seq<StoredTicketView>, d: TicketDraftView)
    requires
        s.len() < u64::MAX,
    ensures
        lookup(s.push(record_for(s, d)), s.len() as u64) == Some(record_for(s, d)),
        record_for(s, d).title == d.title,
        record_for(s, d).description == d.description,
{
}

/// A store whose identifiers are sequential returns nothing for an
/// identifier it never issued.
pub proof fn lemma_get_unknown(s: Seq<StoredTicketView>, id: u64)
    requires
        ids_sequential(s),
        s.len() <= u64::MAX,
        forall|i: int| 0 <= i < s.len() ==> (#[trigger] s[i].id) != id,
    ensures
        lookup(s, id) is None,
{
    if id < s.len() {
        assert(s[id as int].id == id);
    }
}

/// Two insertions never return the same identifier: the store only grows,
/// so the second insertion sees a strictly larger store and assigns a
/// strictly larger identifier.
pub proof fn lemma_distinct_ids(
    s: Seq<StoredTicketView>,
    t: Seq<StoredTicketView>,
    d1: TicketDraftView,
    d2: TicketDraftView,
)
    requires
        s.len() < t.len(),
        t.len() <= u64::MAX,
    ensures
        record_for(s, d1).id != record_for(t, d2).id,
{
}

} // verus!
