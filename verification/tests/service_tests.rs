use std::sync::mpsc::channel;
use std::sync::mpsc::sync_channel;

use ticket_store::service::handle_command;
use ticket_store::service::Command;
use ticket_store::service::QueueError;
use ticket_store::service::TicketStoreClient;
use ticket_store::store::TicketDraft;
use ticket_store::store::TicketStore;

#[test]
fn server_step_inserts_and_replies_with_the_identifier() {
    let mut store = TicketStore::new();
    let draft = TicketDraft::new(String::from("Fix the printer"), String::from("It jams")).unwrap();

    let (reply_sender, reply_receiver) = channel();
    handle_command(
        &mut store,
        Command::Insert {
            draft,
            response_channel: reply_sender,
        },
    );
    let id = reply_receiver.recv().unwrap();

    let (get_sender, get_receiver) = channel();
    handle_command(
        &mut store,
        Command::Get {
            id,
            response_channel: get_sender,
        },
    );
    match get_receiver.recv().unwrap() {
        Some(ticket) => {
            assert_eq!(ticket.id(), id);
            assert_eq!(ticket.title().as_str(), "Fix the printer");
            assert_eq!(ticket.description().as_str(), "It jams");
        }
        None => panic!("the inserted ticket must be found under the replied identifier"),
    }
}

#[test]
fn server_step_replies_nothing_for_an_unknown_identifier() {
    let mut issuing_store = TicketStore::new();
    let draft = TicketDraft::new(String::from("Elsewhere"), String::from("d")).unwrap();
    let foreign_id = issuing_store.add_ticket(draft);

    let mut store = TicketStore::new();
    let (get_sender, get_receiver) = channel();
    handle_command(
        &mut store,
        Command::Get {
            id: foreign_id,
            response_channel: get_sender,
        },
    );
    assert!(get_receiver.recv().unwrap().is_none());
}

#[test]
fn server_step_survives_a_dropped_reply_channel() {
    let mut store = TicketStore::new();
    let draft = TicketDraft::new(String::from("Nobody waits"), String::from("d")).unwrap();

    let (reply_sender, reply_receiver) = channel();
    drop(reply_receiver);
    handle_command(
        &mut store,
        Command::Insert {
            draft,
            response_channel: reply_sender,
        },
    );

    let follow_up = TicketDraft::new(String::from("Still serving"), String::from("d")).unwrap();
    let (next_sender, next_receiver) = channel();
    handle_command(
        &mut store,
        Command::Insert {
            draft: follow_up,
            response_channel: next_sender,
        },
    );
    let id = next_receiver.recv().unwrap();
    let (get_sender, get_receiver) = channel();
    handle_command(
        &mut store,
        Command::Get {
            id,
            response_channel: get_sender,
        },
    );
    match get_receiver.recv().unwrap() {
        Some(ticket) => assert_eq!(ticket.title().as_str(), "Still serving"),
        None => panic!("the store must keep serving after a dropped reply channel"),
    }
}

#[test]
fn client_reports_a_closed_queue_instead_of_panicking() {
    let (command_sender, command_receiver) = sync_channel(1);
    drop(command_receiver);
    let client = TicketStoreClient::new(command_sender);

    let draft = TicketDraft::new(String::from("Too late"), String::from("d")).unwrap();
    match client.insert(draft) {
        Err(e) => assert_eq!(e, QueueError::Closed),
        Ok(_) => panic!("inserting into a closed queue must fail"),
    }

    let mut store = TicketStore::new();
    let id_draft = TicketDraft::new(String::from("Some id"), String::from("d")).unwrap();
    let id = store.add_ticket(id_draft);
    assert!(matches!(client.get(id), Err(QueueError::Closed)));
}

#[test]
fn cloned_clients_share_the_queue_endpoint() {
    let (command_sender, command_receiver) = sync_channel(1);
    let client = TicketStoreClient::new(command_sender);
    let clone = client.clone();
    drop(command_receiver);

    let draft = TicketDraft::new(String::from("Via clone"), String::from("d")).unwrap();
    assert!(matches!(clone.insert(draft), Err(QueueError::Closed)));
}
