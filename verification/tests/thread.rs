use entity_store::thread::CompletionEvent;
use entity_store::thread::Message;
use entity_store::thread::Role;
use entity_store::thread::StopReason;
use entity_store::thread::Thread;
use entity_store::thread::ThreadEvent;
use entity_store::AnyEntity;
use entity_store::EntityMap;

fn texts(thread: &Thread) -> Vec<(Role, String)> {
    thread.messages.iter().map(|message| (message.role, message.text.clone())).collect()
}

#[test]
fn new_thread_has_no_messages() {
    let thread = Thread::new();
    assert!(thread.messages.is_empty());
}

#[test]
fn start_message_opens_an_empty_assistant_message() {
    let mut thread = Thread::new();
    let mut stop_reason = StopReason::EndTurn;
    let emitted = thread.apply_completion_event(CompletionEvent::StartMessage, &mut stop_reason);
    assert_eq!(emitted, ThreadEvent::StreamedCompletion);
    assert_eq!(texts(&thread), vec![(Role::Assistant, String::new())]);
    assert_eq!(stop_reason, StopReason::EndTurn);
}

#[test]
fn text_is_appended_to_the_last_assistant_message() {
    let mut thread = Thread::new();
    let mut stop_reason = StopReason::EndTurn;
    thread.apply_completion_event(CompletionEvent::StartMessage, &mut stop_reason);
    thread.apply_completion_event(CompletionEvent::Text(String::from("Hel")), &mut stop_reason);
    let emitted = thread
        .apply_completion_event(CompletionEvent::Text(String::from("lo")), &mut stop_reason);
    assert_eq!(emitted, ThreadEvent::StreamedCompletion);
    assert_eq!(texts(&thread), vec![(Role::Assistant, String::from("Hello"))]);
    thread.apply_completion_event(CompletionEvent::StartMessage, &mut stop_reason);
    thread.apply_completion_event(CompletionEvent::Text(String::from("again")), &mut stop_reason);
    assert_eq!(
        texts(&thread),
        vec![(Role::Assistant, String::from("Hello")), (Role::Assistant, String::from("again"))]
    );
}

#[test]
fn text_without_a_message_is_dropped() {
    let mut thread = Thread::new();
    let mut stop_reason = StopReason::EndTurn;
    let emitted = thread
        .apply_completion_event(CompletionEvent::Text(String::from("lost")), &mut stop_reason);
    assert_eq!(emitted, ThreadEvent::StreamedCompletion);
    assert!(thread.messages.is_empty());
}

#[test]
fn text_after_a_user_message_is_dropped() {
    let mut thread = Thread::new();
    thread.messages.push(Message { role: Role::User, text: String::from("question") });
    let mut stop_reason = StopReason::EndTurn;
    thread.apply_completion_event(CompletionEvent::Text(String::from("lost")), &mut stop_reason);
    assert_eq!(texts(&thread), vec![(Role::User, String::from("question"))]);
    thread.messages.push(Message { role: Role::System, text: String::from("rules") });
    thread.apply_completion_event(CompletionEvent::Text(String::from("lost")), &mut stop_reason);
    assert_eq!(
        texts(&thread),
        vec![(Role::User, String::from("question")), (Role::System, String::from("rules"))]
    );
}

#[test]
fn stop_records_its_reason_and_leaves_the_messages() {
    let mut thread = Thread::new();
    let mut stop_reason = StopReason::EndTurn;
    thread.apply_completion_event(CompletionEvent::StartMessage, &mut stop_reason);
    thread.apply_completion_event(CompletionEvent::Text(String::from("so far")), &mut stop_reason);
    let emitted = thread
        .apply_completion_event(CompletionEvent::Stop(StopReason::MaxTokens), &mut stop_reason);
    assert_eq!(emitted, ThreadEvent::StreamedCompletion);
    assert_eq!(stop_reason, StopReason::MaxTokens);
    assert_eq!(texts(&thread), vec![(Role::Assistant, String::from("so far"))]);
    thread.apply_completion_event(CompletionEvent::Stop(StopReason::ToolUse), &mut stop_reason);
    assert_eq!(stop_reason, StopReason::ToolUse);
}

#[test]
fn tool_use_changes_nothing() {
    let mut thread = Thread::new();
    let mut stop_reason = StopReason::MaxTokens;
    thread.apply_completion_event(CompletionEvent::StartMessage, &mut stop_reason);
    let emitted = thread.apply_completion_event(CompletionEvent::ToolUse, &mut stop_reason);
    assert_eq!(emitted, ThreadEvent::StreamedCompletion);
    assert_eq!(stop_reason, StopReason::MaxTokens);
    assert_eq!(texts(&thread), vec![(Role::Assistant, String::new())]);
}

#[test]
fn a_thread_is_streamed_into_as_an_entity() {
    let mut entity_map = EntityMap::new();
    let slot = entity_map.reserve::<Thread>();
    let this = entity_map.insert(slot, Thread::new());
    let weak = this.downgrade();
    let events = vec![
        CompletionEvent::StartMessage,
        CompletionEvent::Text(String::from("one ")),
        CompletionEvent::Text(String::from("two")),
        CompletionEvent::Stop(StopReason::EndTurn),
    ];
    let mut stop_reason = StopReason::MaxTokens;
    for event in events {
        let before = stop_reason;
        let result = weak.update(&mut entity_map, move |mut entity: AnyEntity| {
            let mut stop_reason = before;
            let thread = entity.downcast_mut::<Thread>().unwrap();
            let emitted = thread.apply_completion_event(event, &mut stop_reason);
            (entity, (emitted, stop_reason))
        });
        let (emitted, after) = result.unwrap();
        assert_eq!(emitted, ThreadEvent::StreamedCompletion);
        stop_reason = after;
    }
    assert_eq!(stop_reason, StopReason::EndTurn);
    let lease = entity_map.lease(&this);
    assert_eq!(texts(lease.get().unwrap()), vec![(Role::Assistant, String::from("one two"))]);
    entity_map.end_lease(lease);
    this.release(&mut entity_map);
    let late = weak.update(&mut entity_map, |entity: AnyEntity| (entity, ()));
    assert!(late.is_err());
}
