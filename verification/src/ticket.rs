//! The validated ticket value type: a title, a description and a status,
//! where the title and the description are checked against byte-length
//! bounds at construction time.

use vstd::prelude::*;
use vstd::utf8::encode_scalar;
use vstd::utf8::encode_utf8;

verus! {

/// Number of bytes in the UTF-8 encoding of a character sequence.  The
/// length bounds on titles and descriptions are byte bounds, exactly as
/// `str::len` reports them.
pub open spec fn byte_len(s: Seq<char>) -> nat {
    encode_utf8(s).len()
}

/// A title is valid when it is non-empty and at most 50 bytes long.
pub open spec fn valid_title(t: Seq<char>) -> bool {
    0 < byte_len(t) <= 50
}

/// A description is valid when it is non-empty and at most 500 bytes long.
pub open spec fn valid_description(d: Seq<char>) -> bool {
    0 < byte_len(d) <= 500
}

/// The text that `easy_ticket` substitutes when the supplied description is
/// invalid.
pub open spec fn default_description() -> Seq<char> {
    "Description not provided"@
}

/// The error reported for an invalid title: empty titles take precedence
/// over overlong ones.
pub open spec fn title_error(t: Seq<char>) -> TicketError {
    if byte_len(t) == 0 {
        TicketError::EmptyTitle
    } else {
        TicketError::TitleTooLong
    }
}

/// The error reported by `Ticket::new`: the title is checked before the
/// description, and emptiness before length.
pub open spec fn construction_error(t: Seq<char>, d: Seq<char>) -> TicketError {
    if byte_len(t) == 0 {
        TicketError::EmptyTitle
    } else if byte_len(t) > 50 {
        TicketError::TitleTooLong
    } else if byte_len(d) == 0 {
        TicketError::EmptyDescription
    } else {
        TicketError::DescriptionTooLong
    }
}

/// Why a ticket (or a draft) could not be constructed.
#[derive(Clone, Copy, Debug, PartialEq, Eq, Structural)]
pub enum TicketError {
    EmptyTitle,
    TitleTooLong,
    EmptyDescription,
    DescriptionTooLong,
}

impl TicketError {
    /// The human-readable message distinguishing the four validation
    /// failures.
    pub fn message(&self) -> (r: &'static str)
        ensures
            *self == TicketError::EmptyTitle ==> r@ == "Title cannot be empty"@,
            *self == TicketError::TitleTooLong ==> r@ == "Title cannot be longer than 50 bytes"@,
            *self == TicketError::EmptyDescription ==> r@ == "Description cannot be empty"@,
            *self == TicketError::DescriptionTooLong ==> r@ == "Description cannot be longer than 500 bytes"@,
    {
        match self {
            TicketError::EmptyTitle => "Title cannot be empty",
            TicketError::TitleTooLong => "Title cannot be longer than 50 bytes",
            TicketError::EmptyDescription => "Description cannot be empty",
            TicketError::DescriptionTooLong => "Description cannot be longer than 500 bytes",
        }
    }
}

/// Workflow state of a ticket.
pub enum Status {
    ToDo,
    InProgress { assigned_to: String },
    Done,
}

/// Mathematical image of a `Status`: the assignee is abstracted to its
/// character sequence.
pub enum StatusView {
    ToDo,
    InProgress { assigned_to: Seq<char> },
    Done,
}

impl View for Status {
    type V = StatusView;

    open spec fn view(&self) -> StatusView {
        match self {
            Status::ToDo => StatusView::ToDo,
            Status::InProgress { assigned_to } => StatusView::InProgress {
                assigned_to: assigned_to@,
            },
            Status::Done => StatusView::Done,
        }
    }
}

impl Clone for Status {
    fn clone(&self) -> (r: Self)
        ensures
            r@ == self@,
    {
        match self {
            Status::ToDo => Status::ToDo,
            Status::InProgress { assigned_to } => Status::InProgress {
                assigned_to: assigned_to.clone(),
            },
            Status::Done => Status::Done,
        }
    }
}

/// Mathematical image of a `Ticket`.
pub struct TicketView {
    pub title: Seq<char>,
    pub description: Seq<char>,
    pub status: StatusView,
}

/// A validated ticket.  Values of this type can only be obtained through
/// `Ticket::new` or `easy_ticket`, so the title and the description always
/// satisfy their byte-length bounds.
pub struct Ticket {
    title: String,
    description: String,
    status: Status,
}

impl View for Ticket {
    type V = TicketView;

    closed spec fn view(&self) -> TicketView {
        TicketView {
            title: self.title@,
            description: self.description@,
            status: self.status@,
        }
    }
}

impl Ticket {
    /// Validating constructor: succeeds exactly when both the title and the
    /// description are within bounds, and otherwise reports the first
    /// violated rule.
    pub fn new(title: String, description: String, status: Status) -> (r: Result<Ticket, TicketError>)
        ensures
            r is Ok <==> valid_title(title@) && valid_description(description@),
            r matches Ok(t) ==> t@ == (TicketView {
                title: title@,
                description: description@,
                status: status@,
            }),
            r matches Err(e) ==> e == construction_error(title@, description@),
            title@.len() == 0 ==> r is Err,
    {
        let title_bytes = title.as_str().as_bytes().len();
        if title_bytes == 0 {
            return Err(TicketError::EmptyTitle);
        }
        if title_bytes > 50 {
            return Err(TicketError::TitleTooLong);
        }
        let description_bytes = description.as_str().as_bytes().len();
        if description_bytes == 0 {
            return Err(TicketError::EmptyDescription);
        }
        if description_bytes > 500 {
            return Err(TicketError::DescriptionTooLong);
        }
        Ok(Ticket { title, description, status })
    }

    pub fn title(&self) -> (r: &String)
        ensures
            r@ == self@.title,
    {
        &self.title
    }

    pub fn description(&self) -> (r: &String)
        ensures
            r@ == self@.description,
    {
        &self.description
    }

    pub fn status(&self) -> (r: &Status)
        ensures
            r@ == self@.status,
    {
        &self.status
    }
}

/// The UTF-8 encoding of a character sequence takes between one and four
/// bytes per character.
pub proof fn lemma_byte_len_bounds(s: Seq<char>)
    ensures
        s.len() <= byte_len(s) <= 4 * s.len(),
    decreases s.len(),
{
    if s.len() != 0 {
        assert(1 <= encode_scalar(s[0] as u32).len() <= 4);
        lemma_byte_len_bounds(s.drop_first());
    }
}

/// An empty title is never valid, so construction always fails on it:
/// both `Ticket::new` and `easy_ticket` promise `Ok` exactly on valid
/// titles.
pub proof fn lemma_empty_title_invalid(t: Seq<char>)
    requires
        t.len() == 0,
    ensures
        !valid_title(t),
{
}

/// Lenient constructor: an invalid title is reported as an error, while an
/// invalid description is recovered from by substituting the default text.
pub fn easy_ticket(title: String, description: String, status: Status) -> (r: Result<Ticket, TicketError>)
    ensures
        r is Ok <==> valid_title(title@),
        title@.len() == 0 ==> r is Err,
        r matches Ok(t) ==> t@.title == title@ && t@.status == status@,
        r matches Ok(t) ==> t@.description == (if valid_description(description@) {
            description@
        } else {
            default_description()
        }),
        r matches Err(e) ==> e == title_error(title@),
{
    let fallback_status = status.clone();
    match Ticket::new(title.clone(), description, status) {
        Ok(t) => Ok(t),
        Err(TicketError::EmptyTitle) => Err(TicketError::EmptyTitle),
        Err(TicketError::TitleTooLong) => Err(TicketError::TitleTooLong),
        Err(_) => {
            let fallback = "Description not provided".to_owned();
            proof {
                reveal_strlit("Description not provided");
                lemma_byte_len_bounds(fallback@);
            }
            let retried = Ticket::new(title, fallback, fallback_status);
            Ok(retried.unwrap())
        },
    }
}

} // verus!
