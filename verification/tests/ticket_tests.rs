use ticket_store::ticket::easy_ticket;
use ticket_store::ticket::Status;
use ticket_store::ticket::Ticket;
use ticket_store::ticket::TicketError;

#[test]
fn template_description_is_used_if_empty() {
    let ticket = easy_ticket(String::from("A title"), String::new(), Status::ToDo).unwrap();
    assert_eq!(ticket.description().as_str(), "Description not provided");
}

#[test]
fn template_description_is_used_if_too_long() {
    let ticket = easy_ticket(String::from("A title"), "a".repeat(501), Status::ToDo).unwrap();
    assert_eq!(ticket.description().as_str(), "Description not provided");
}

#[test]
fn valid_fields_round_trip() {
    let ticket = Ticket::new(
        String::from("Fix the printer"),
        String::from("It jams on every second page"),
        Status::InProgress {
            assigned_to: String::from("Ada"),
        },
    )
    .unwrap();
    assert_eq!(ticket.title().as_str(), "Fix the printer");
    assert_eq!(ticket.description().as_str(), "It jams on every second page");
    match ticket.status() {
        Status::InProgress { assigned_to } => assert_eq!(assigned_to.as_str(), "Ada"),
        _ => panic!("status must round-trip unchanged"),
    }
}

#[test]
fn title_boundary_is_fifty_bytes() {
    let ok = Ticket::new("a".repeat(50), String::from("A description"), Status::ToDo);
    assert!(ok.is_ok());
    match Ticket::new("a".repeat(51), String::from("A description"), Status::ToDo) {
        Err(e) => {
            assert_eq!(e, TicketError::TitleTooLong);
            assert_eq!(e.message(), "Title cannot be longer than 50 bytes");
        }
        Ok(_) => panic!("a 51-byte title must be rejected"),
    }
}

#[test]
fn empty_title_always_fails() {
    assert!(Ticket::new(String::new(), String::from("A description"), Status::ToDo).is_err());
    match easy_ticket(String::new(), String::from("A description"), Status::Done) {
        Err(e) => {
            assert_eq!(e, TicketError::EmptyTitle);
            assert_eq!(e.message(), "Title cannot be empty");
        }
        Ok(_) => panic!("an empty title must be rejected even by the lenient constructor"),
    }
}

#[test]
fn each_validation_error_is_reported() {
    match Ticket::new(String::new(), String::from("d"), Status::ToDo) {
        Err(e) => assert_eq!(e, TicketError::EmptyTitle),
        Ok(_) => panic!("expected an error"),
    }
    match Ticket::new("t".repeat(51), String::from("d"), Status::ToDo) {
        Err(e) => assert_eq!(e, TicketError::TitleTooLong),
        Ok(_) => panic!("expected an error"),
    }
    match Ticket::new(String::from("t"), String::new(), Status::ToDo) {
        Err(e) => {
            assert_eq!(e, TicketError::EmptyDescription);
            assert_eq!(e.message(), "Description cannot be empty");
        }
        Ok(_) => panic!("expected an error"),
    }
    match Ticket::new(String::from("t"), "d".repeat(501), Status::ToDo) {
        Err(e) => {
            assert_eq!(e, TicketError::DescriptionTooLong);
            assert_eq!(e.message(), "Description cannot be longer than 500 bytes");
        }
        Ok(_) => panic!("expected an error"),
    }
}

#[test]
fn descriptions_of_five_hundred_bytes_are_accepted() {
    let ticket = Ticket::new(String::from("t"), "d".repeat(500), Status::ToDo).unwrap();
    assert_eq!(ticket.description().len(), 500);
    let lenient = easy_ticket(String::from("t"), "d".repeat(500), Status::ToDo).unwrap();
    assert_eq!(lenient.description().len(), 500);
}

#[test]
fn overlong_title_fails_even_when_lenient() {
    match easy_ticket("t".repeat(51), String::from("A description"), Status::ToDo) {
        Err(e) => assert_eq!(e, TicketError::TitleTooLong),
        Ok(_) => panic!("an overlong title must be rejected even by the lenient constructor"),
    }
}
