use lowui::builders::{ElementBuilder, GlobalAttr, NodeBuilder};
use lowui::command::{commands_to_json, Command};
use lowui::event::{DecodeError, Event, WireField};
use lowui::html::HtmlPage;
use lowui::session::{Action, App, CloseReason, Input, Session, SessionState};

struct Stack {
    ids: Vec<String>,
}

impl App for Stack {
    fn new() -> Stack {
        Stack { ids: Vec::new() }
    }

    fn init() -> HtmlPage {
        HtmlPage::new("stack")
            .node(ElementBuilder::new("div").id("root").el(ElementBuilder::new("button").id("add")))
    }

    fn update(&mut self, event: Event) -> Vec<Command> {
        match event {
            Event::Click { id } if id == "remove" => match self.ids.pop() {
                Some(last) => vec![Command::remove_element(&last)],
                None => vec![Command::none()],
            },
            Event::Click { id } => {
                let new_id = self.ids.len().to_string();
                self.ids.push(new_id.clone());
                let node = ElementBuilder::new("p").id(&new_id).text(&id).node();
                vec![Command::append_child_element("root", node)]
            }
            _ => vec![Command::none()],
        }
    }
}

fn click(id: &str) -> Input {
    Input::Message(format!(
        "{{\"event\":\"button-click\",\"id\":\"{}\",\"type\":\"submit\"}}",
        id
    ))
}

fn paragraph(id: &str) -> String {
    commands_to_json(&vec![Command::append_child_element(
        "root",
        ElementBuilder::new("p").id(id).text("add").node(),
    )])
}

#[test]
fn end_to_end_stack_of_paragraphs() {
    let mut session: Session<Stack> = Session::new();
    assert_eq!(session.state(), SessionState::Accepting);
    assert_eq!(session.step(Input::Connected), Action::Receive);
    assert_eq!(session.state(), SessionState::Receiving);

    assert_eq!(session.step(click("add")), Action::Send(paragraph("0")));
    assert_eq!(session.state(), SessionState::Sending);
    assert_eq!(session.step(Input::Sent), Action::Receive);

    assert_eq!(session.step(click("add")), Action::Send(paragraph("1")));
    assert_eq!(session.step(Input::Sent), Action::Receive);

    assert_eq!(
        session.step(click("remove")),
        Action::Send(commands_to_json(&vec![Command::remove_element("1")]))
    );
    assert_eq!(session.step(Input::Sent), Action::Receive);
    assert_eq!(session.state(), SessionState::Receiving);
}

#[test]
fn sessions_do_not_share_state() {
    let mut first: Session<Stack> = Session::new();
    let mut second: Session<Stack> = Session::new();
    first.step(Input::Connected);
    second.step(Input::Connected);

    assert_eq!(first.step(click("add")), Action::Send(paragraph("0")));
    first.step(Input::Sent);
    assert_eq!(first.step(click("add")), Action::Send(paragraph("1")));

    assert_eq!(second.step(click("add")), Action::Send(paragraph("0")));
}

#[test]
fn undecodable_message_closes_the_session() {
    let mut session: Session<Stack> = Session::new();
    session.step(Input::Connected);
    let action = session.step(Input::Message("{\"event\":\"check-changed\"".to_string()));
    assert_eq!(action, Action::Close(CloseReason::Decode(DecodeError::Malformed)));
    assert_eq!(session.state(), SessionState::Closed);
    assert_eq!(session.step(Input::Sent), Action::Close(CloseReason::OutOfTurn));

    let mut other: Session<Stack> = Session::new();
    other.step(Input::Connected);
    let action = other.step(Input::Message("{\"event\":\"button-click\",\"type\":\"submit\"}".to_string()));
    assert_eq!(action, Action::Close(CloseReason::Decode(DecodeError::Missing(WireField::Id))));
}

#[test]
fn session_follows_its_states() {
    let mut session: Session<Stack> = Session::new();
    assert_eq!(session.step(Input::Sent), Action::Close(CloseReason::OutOfTurn));
    assert_eq!(session.state(), SessionState::Closed);

    let mut session: Session<Stack> = Session::new();
    assert_eq!(session.step(Input::Failed), Action::Close(CloseReason::Connection));
    assert_eq!(session.state(), SessionState::Closed);

    let mut session: Session<Stack> = Session::new();
    session.step(Input::Connected);
    assert_eq!(session.step(Input::Skipped), Action::Receive);
    assert_eq!(session.state(), SessionState::Receiving);
    session.step(click("add"));
    assert_eq!(session.step(click("add")), Action::Close(CloseReason::OutOfTurn));
    assert_eq!(session.state(), SessionState::Closed);

    let mut session: Session<Stack> = Session::new();
    session.step(Input::Connected);
    session.step(click("add"));
    assert_eq!(session.step(Input::Failed), Action::Close(CloseReason::Connection));
    assert_eq!(session.step(Input::Connected), Action::Close(CloseReason::OutOfTurn));
}

#[test]
fn application_page_is_rendered_once() {
    let html = Stack::init().render();
    assert!(html.unwrap().contains(
        "<div id=\"root\"><button id=\"add\" onclick=\"buttonClick(this)\"></button></div>"
    ));
}
