use ralph_orchestrator::executor::RalphExecutor;
use ralph_orchestrator::logs::{
    assistant_entry, error_entry, stdout_entry, NormalizedEntry, NormalizedEntryType,
    PlainTextLogProcessor,
};
use ralph_orchestrator::msg_store::{EntryIndexProvider, LogMsg, MsgStore};
use ralph_orchestrator::normalizer::LogNormalizer;

fn assistant(content: &str) -> NormalizedEntry {
    NormalizedEntry {
        timestamp: None,
        entry_type: NormalizedEntryType::AssistantMessage,
        content: content.to_string(),
        metadata: None,
    }
}

fn error(content: &str) -> NormalizedEntry {
    NormalizedEntry {
        timestamp: None,
        entry_type: NormalizedEntryType::ErrorMessage,
        content: content.to_string(),
        metadata: None,
    }
}

fn entries_of(history: &[LogMsg]) -> Vec<(usize, NormalizedEntry)> {
    history
        .iter()
        .filter_map(|m| match m {
            LogMsg::Entry { index, entry } => Some((*index, entry.clone())),
            _ => None,
        })
        .collect()
}

#[test]
fn stdout_entry_strips_escape_sequences() {
    assert_eq!(stdout_entry("\x1b[32mfoo\x1b[m bar"), assistant("foo bar"));
    assert_eq!(stdout_entry("\x1b[1;31merror\x1b[0m: \x1b[2Kdone"), assistant("error: done"));
    assert_eq!(stdout_entry("plain"), assistant("plain"));
    assert_eq!(stdout_entry("tab\there\r"), assistant("tabhere"));
}

#[test]
fn stderr_entry_keeps_the_line() {
    assert_eq!(error_entry("\x1b[31mboom\x1b[0m".to_string()), error("\x1b[31mboom\x1b[0m"));
    assert_eq!(assistant_entry("as is \x1b[0m".to_string()), assistant("as is \x1b[0m"));
}

#[test]
fn processor_emits_a_line_once_its_feed_is_seen() {
    let mut processor = PlainTextLogProcessor::new();
    assert_eq!(processor.process("hel"), vec![]);
    assert_eq!(processor.process("lo\nwor"), vec![assistant("hello")]);
    assert_eq!(processor.process("ld\n\n\x1b[33mx\x1b[0m\nrest"), vec![
        assistant("world"),
        assistant(""),
        assistant("x"),
    ]);
    assert_eq!(processor.finish(), Some(assistant("rest")));
    assert_eq!(processor.finish(), None);
    assert_eq!(processor.process("\n"), vec![assistant("")]);
    assert_eq!(processor.finish(), None);
}

#[test]
fn store_assigns_indices_in_order() {
    let mut store = MsgStore::new();
    assert_eq!(store.high_water_mark(), 0);
    store.push_stdout("a\n".to_string());
    assert_eq!(store.publish(assistant("a")), 0);
    store.push_stderr("b".to_string());
    assert_eq!(store.publish(error("b")), 1);
    assert_eq!(store.publish(error("c")), 2);
    store.push_finished();
    assert_eq!(store.high_water_mark(), 3);
    assert_eq!(
        store.get_history(),
        &vec![
            LogMsg::Stdout("a\n".to_string()),
            LogMsg::Entry { index: 0, entry: assistant("a") },
            LogMsg::Stderr("b".to_string()),
            LogMsg::Entry { index: 1, entry: error("b") },
            LogMsg::Entry { index: 2, entry: error("c") },
            LogMsg::Finished,
        ]
    );
}

#[test]
fn provider_goes_on_above_the_published_indices() {
    let mut store = MsgStore::new();
    let mut fresh = EntryIndexProvider::new();
    assert_eq!(fresh.current(), 0);
    assert_eq!(fresh.next(), 0);
    assert_eq!(fresh.next(), 1);
    assert_eq!(fresh.current(), 2);
    store.publish(assistant("a"));
    store.push_stdout("raw".to_string());
    store.publish(assistant("b"));
    let mut resumed = EntryIndexProvider::start_from(&store);
    assert_eq!(resumed.current(), 2);
    assert_eq!(resumed.next(), 2);
    assert_eq!(resumed.next(), 3);
    assert_eq!(EntryIndexProvider::start_from(&MsgStore::new()).current(), 0);
}

#[test]
fn late_subscriber_gets_backlog_then_live() {
    let mut store = MsgStore::new();
    let mut early = store.subscribe();
    let mut seen_early: Vec<LogMsg> = Vec::new();
    store.push_stdout("one\n".to_string());
    store.publish(assistant("one"));
    seen_early.extend(store.poll(&mut early));
    store.push_stderr("two".to_string());

    let mut late = store.subscribe();
    let mut seen_late: Vec<LogMsg> = Vec::new();
    let backlog = store.poll(&mut late);
    assert_eq!(backlog.len(), 3);
    seen_late.extend(backlog);
    seen_early.extend(store.poll(&mut early));

    store.publish(error("two"));
    store.push_finished();
    seen_early.extend(store.poll(&mut early));
    seen_late.extend(store.poll(&mut late));
    assert_eq!(store.poll(&mut early), vec![]);
    assert_eq!(store.poll(&mut late), vec![]);

    assert_eq!(&seen_early, store.get_history());
    assert_eq!(&seen_late, store.get_history());
    let indices: Vec<usize> = entries_of(&seen_late).iter().map(|(i, _)| *i).collect();
    assert_eq!(indices, vec![0, 1]);
}

#[test]
fn foreign_subscriber_ahead_of_a_record_is_handed_nothing() {
    let mut long = MsgStore::new();
    long.push_finished();
    long.push_finished();
    let mut reader = long.subscribe();
    long.poll(&mut reader);
    let mut short = MsgStore::new();
    short.push_stdout("x".to_string());
    assert_eq!(short.poll(&mut reader), vec![]);
    short.push_stdout("y".to_string());
    assert_eq!(short.poll(&mut reader), vec![LogMsg::Stdout("y".to_string())]);
    short.skip_to_end(&mut reader);
    assert_eq!(short.poll(&mut reader), vec![]);
}

#[test]
fn pipeline_normalizes_both_streams_in_observation_order() {
    let mut store = MsgStore::new();
    store.push_stdout("\x1b[32mplan".to_string());
    store.push_stderr("\x1b[31mwarn\x1b[0m".to_string());
    store.push_stdout("ning\x1b[0m\nne".to_string());
    let mut pipeline = RalphExecutor::plan().normalize_logs(&mut store);
    assert_eq!(
        entries_of(store.get_history()),
        vec![(0, error("\x1b[31mwarn\x1b[0m")), (1, assistant("planning"))]
    );
    assert_eq!(store.get_history().len(), 5);

    pipeline.step(&mut store);
    assert_eq!(store.get_history().len(), 5);

    store.push_stdout("xt\nlast".to_string());
    store.push_stderr("oops".to_string());
    store.push_finished();
    pipeline.step(&mut store);
    assert_eq!(
        entries_of(store.get_history()),
        vec![
            (0, error("\x1b[31mwarn\x1b[0m")),
            (1, assistant("planning")),
            (2, assistant("next")),
            (3, error("oops")),
            (4, assistant("last")),
        ]
    );
    assert_eq!(store.high_water_mark(), 5);
    assert_eq!(
        &store.get_history()[..5],
        &[
            LogMsg::Stdout("\x1b[32mplan".to_string()),
            LogMsg::Stderr("\x1b[31mwarn\x1b[0m".to_string()),
            LogMsg::Stdout("ning\x1b[0m\nne".to_string()),
            LogMsg::Entry { index: 0, entry: error("\x1b[31mwarn\x1b[0m") },
            LogMsg::Entry { index: 1, entry: assistant("planning") },
        ]
    );
}

#[test]
fn two_pipelines_share_one_counter() {
    let mut store = MsgStore::new();
    store.push_stderr("e1".to_string());
    let mut first = LogNormalizer::new(&store);
    first.step(&mut store);
    store.push_stdout("o1\n".to_string());
    let mut second = LogNormalizer::new(&store);
    second.step(&mut store);
    let indices: Vec<usize> = entries_of(store.get_history()).iter().map(|(i, _)| *i).collect();
    assert_eq!(indices, vec![0, 1, 2]);
    assert_eq!(
        entries_of(store.get_history()),
        vec![(0, error("e1")), (1, error("e1")), (2, assistant("o1"))]
    );
}

#[test]
fn duplicates_are_equal() {
    let msg = LogMsg::Entry { index: 4, entry: assistant("x") };
    assert_eq!(msg.duplicate(), msg);
    assert_eq!(LogMsg::Stdout("s".to_string()).duplicate(), LogMsg::Stdout("s".to_string()));
    assert_eq!(LogMsg::Stderr("s".to_string()).duplicate(), LogMsg::Stderr("s".to_string()));
    assert_eq!(LogMsg::Finished.duplicate(), LogMsg::Finished);
    assert_eq!(error("e").duplicate(), error("e"));
}

#[test]
fn backlog_then_live_lines_give_one_entry_each() {
    let lines = ["one", "\x1b[1mtwo\x1b[0m", "", "four", "five"];
    let mut store = MsgStore::new();
    for line in &lines[..2] {
        store.push_stdout(format!("{}\n", line));
    }
    let mut pipeline = RalphExecutor::build().normalize_logs(&mut store);
    for line in &lines[2..] {
        store.push_stdout(format!("{}\n", line));
        pipeline.step(&mut store);
    }
    pipeline.step(&mut store);
    assert_eq!(
        entries_of(store.get_history()),
        vec![
            (0, assistant("one")),
            (1, assistant("two")),
            (2, assistant("")),
            (3, assistant("four")),
            (4, assistant("five")),
        ]
    );
}

#[test]
fn entries_do_not_depend_on_how_the_output_is_cut() {
    let raw = "al\x1b[32mpha\x1b[0m\nbeta\n\ngam";
    let mut whole = MsgStore::new();
    whole.push_stdout(raw.to_string());
    whole.push_finished();
    RalphExecutor::plan().normalize_logs(&mut whole);
    let expected: Vec<NormalizedEntry> =
        entries_of(whole.get_history()).into_iter().map(|(_, e)| e).collect();
    assert_eq!(
        expected,
        vec![assistant("alpha"), assistant("beta"), assistant(""), assistant("gam")]
    );

    for cut in 0..=raw.len() {
        if !raw.is_char_boundary(cut) {
            continue;
        }
        let mut store = MsgStore::new();
        store.push_stdout(raw[..cut].to_string());
        let mut pipeline = RalphExecutor::plan().normalize_logs(&mut store);
        store.push_stdout(raw[cut..].to_string());
        pipeline.step(&mut store);
        store.push_finished();
        pipeline.step(&mut store);
        let made: Vec<(usize, NormalizedEntry)> = entries_of(store.get_history());
        let indices: Vec<usize> = made.iter().map(|(i, _)| *i).collect();
        assert_eq!(indices, (0..expected.len()).collect::<Vec<usize>>(), "cut {}", cut);
        let entries: Vec<NormalizedEntry> = made.into_iter().map(|(_, e)| e).collect();
        assert_eq!(entries, expected, "cut {}", cut);
    }
}
