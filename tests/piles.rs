use task_piles::pile::Pile;
use task_piles::registry::{PileRegistry, PileStartError};
use task_piles::task::{CreatePileDTO, PileInfo, Task};

fn task(id: u32, title: &str) -> Task {
    Task::new(id, title.to_string(), String::new())
}

fn info(id: u32, is_stack: bool) -> PileInfo {
    PileInfo::new(id, "p".to_string(), String::new(), is_stack)
}

/// Starts a pile unit by keeping it in `units`; its handle is its index.
fn start_in(units: &mut Vec<Pile>, info: PileInfo) -> Result<usize, PileStartError> {
    units.push(Pile::new(info));
    Ok(units.len() - 1)
}

#[test]
fn stack_completes_in_reverse_push_order() {
    let mut pile = Pile::new(info(0, true));
    for i in 0..5u32 {
        pile.push_task(task(i, &format!("t{i}")));
    }
    let ids: Vec<u32> = (0..5).map(|_| pile.complete_current().unwrap().id).collect();
    assert_eq!(ids, vec![4, 3, 2, 1, 0]);
    assert!(pile.complete_current().is_none());
}

#[test]
fn queue_completes_in_push_order() {
    let mut pile = Pile::new(info(0, false));
    for i in 0..5u32 {
        pile.push_task(task(i, &format!("t{i}")));
    }
    let ids: Vec<u32> = (0..5).map(|_| pile.complete_current().unwrap().id).collect();
    assert_eq!(ids, vec![0, 1, 2, 3, 4]);
    assert!(pile.complete_current().is_none());
}

#[test]
fn peeking_many_times_changes_nothing() {
    let mut peeked = Pile::new(info(0, false));
    let mut plain = Pile::new(info(0, false));
    for i in 0..3u32 {
        peeked.push_task(task(i, "x"));
        plain.push_task(task(i, "x"));
    }
    for _ in 0..4 {
        assert_eq!(peeked.pile_top(), Some(task(0, "x")));
    }
    assert_eq!(peeked.len(), 3);
    for _ in 0..3 {
        assert_eq!(peeked.complete_current(), plain.complete_current());
    }
}

#[test]
fn stack_top_is_newest_queue_top_is_oldest() {
    let mut stack = Pile::new(info(0, true));
    let mut queue = Pile::new(info(1, false));
    for (i, t) in ["A", "B"].iter().enumerate() {
        stack.push_task(task(i as u32, t));
        queue.push_task(task(i as u32, t));
    }
    assert_eq!(stack.pile_top().unwrap().title, "B");
    assert_eq!(queue.pile_top().unwrap().title, "A");
}

#[test]
fn empty_pile_yields_nothing() {
    for is_stack in [true, false] {
        let mut pile = Pile::new(info(3, is_stack));
        assert!(pile.pile_top().is_none());
        assert!(pile.complete_current().is_none());
        assert_eq!(pile.len(), 0);
        assert_eq!(pile.info(), &info(3, is_stack));
    }
}

#[test]
fn work_stack_scenario() {
    let mut units: Vec<Pile> = Vec::new();
    let mut reg: PileRegistry<usize> = PileRegistry::new();
    let (created, handle) = reg
        .create_pile("work".to_string(), String::new(), true, |i| start_in(&mut units, i))
        .unwrap();
    assert_eq!(created.id, 0);
    assert_eq!(created.name, "work");
    assert_eq!(created.description, "");
    assert!(created.is_stack);
    let pile = &mut units[handle];
    assert_eq!(pile.info(), &created);
    pile.push_task(task(1, "A"));
    pile.push_task(task(2, "B"));
    pile.push_task(task(3, "C"));
    assert_eq!(pile.complete_current(), Some(task(3, "C")));
    assert_eq!(pile.pile_top(), Some(task(2, "B")));
    assert_eq!(pile.complete_current(), Some(task(2, "B")));
    assert_eq!(pile.complete_current(), Some(task(1, "A")));
    assert_eq!(pile.complete_current(), None);
}

#[test]
fn delete_first_of_two_piles() {
    let mut units: Vec<Pile> = Vec::new();
    let mut reg: PileRegistry<usize> = PileRegistry::new();
    let (a, _) = reg
        .create_pile("a".to_string(), String::new(), true, |i| start_in(&mut units, i))
        .unwrap();
    let (b, hb) = reg
        .create_pile("b".to_string(), String::new(), false, |i| start_in(&mut units, i))
        .unwrap();
    assert_eq!((a.id, b.id), (0, 1));
    assert!(reg.delete_pile(0).is_some());
    assert_eq!(reg.get_pile(0), None);
    let h = reg.get_pile(1).unwrap();
    assert_eq!(h, hb);
    let pile = &mut units[h];
    pile.push_task(task(9, "Z"));
    assert_eq!(pile.pile_top(), Some(task(9, "Z")));
    assert_eq!(pile.complete_current(), Some(task(9, "Z")));
}

#[test]
fn ids_never_reused_after_deleting_newest() {
    let mut units: Vec<Pile> = Vec::new();
    let mut reg: PileRegistry<usize> = PileRegistry::new();
    let mut seen = Vec::new();
    for _ in 0..3 {
        let (i, _) = reg
            .create_pile("n".to_string(), String::new(), true, |i| start_in(&mut units, i))
            .unwrap();
        seen.push(i.id);
        assert_eq!(reg.delete_pile(i.id), Some(units.len() - 1));
    }
    assert_eq!(seen, vec![0, 1, 2]);
    assert_eq!(reg.next_id(), 3);
}

#[test]
fn lookup_of_unknown_or_deleted_id_is_empty() {
    let mut units: Vec<Pile> = Vec::new();
    let mut reg: PileRegistry<usize> = PileRegistry::new();
    assert_eq!(reg.get_pile(0), None);
    assert_eq!(reg.get_pile(u32::MAX), None);
    reg.create_pile("a".to_string(), String::new(), true, |i| start_in(&mut units, i))
        .unwrap();
    assert_eq!(reg.get_pile(0), Some(0));
    assert_eq!(reg.get_pile(1), None);
    assert_eq!(reg.delete_pile(0), Some(0));
    assert_eq!(reg.get_pile(0), None);
}

#[test]
fn deleting_unknown_id_is_a_no_op() {
    let mut units: Vec<Pile> = Vec::new();
    let mut reg: PileRegistry<usize> = PileRegistry::new();
    reg.create_pile("a".to_string(), String::new(), true, |i| start_in(&mut units, i))
        .unwrap();
    assert_eq!(reg.delete_pile(7), None);
    assert_eq!(reg.get_pile(0), Some(0));
    assert_eq!(reg.next_id(), 1);
}

#[test]
fn failed_start_fails_creation_and_leaves_a_gap() {
    let mut units: Vec<Pile> = Vec::new();
    let mut reg: PileRegistry<usize> = PileRegistry::new();
    let mut handed: Option<PileInfo> = None;
    let r = reg.create_pile("bad".to_string(), "d".to_string(), false, |i| {
        handed = Some(i);
        Err(PileStartError)
    });
    assert_eq!(r, Err(PileStartError));
    assert_eq!(handed, Some(PileInfo::new(0, "bad".to_string(), "d".to_string(), false)));
    assert_eq!(reg.get_pile(0), None);
    let (next, _) = reg
        .create_pile("good".to_string(), String::new(), false, |i| start_in(&mut units, i))
        .unwrap();
    assert_eq!(next.id, 1);
}

#[test]
fn clones_are_equal() {
    let t = Task::new(5, "title".to_string(), "desc".to_string());
    assert_eq!(t.clone(), t);
    let i = PileInfo::new(2, "n".to_string(), "d".to_string(), true);
    assert_eq!(i.clone(), i);
    let d = CreatePileDTO::new("n".to_string(), "d".to_string(), false);
    assert_eq!(d.clone(), d);
    assert_eq!(d.name, "n");
    assert!(!d.is_stack);
}
