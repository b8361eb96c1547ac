//! The order of stages in a pass, and batched steps.

use oxillama_arch::common::batched::{plan_batched, slot_reads, SlotShape, Span};
use oxillama_arch::common::embedding::{check_tokens, count_known, embed_token, embed_tokens};
use oxillama_arch::common::heads::{gqa_ratio, heads_per_kv, window_start};
use oxillama_arch::common::pass::{
    begin_pass, experts_failed, layer_failed, Order, PassShape, Stage,
};
use oxillama_arch::error::ArchError;

fn stages(order: Order, layers: usize, tokens: usize, start: usize) -> Vec<Stage> {
    let shape = PassShape { order, layers, tokens, start };
    let mut all = vec![];
    let mut stage = shape.first();
    while !matches!(stage, Stage::Done) {
        all.push(stage);
        stage = shape.after(stage);
    }
    all
}

fn attend(layer: usize, token: usize, position: usize) -> Stage {
    Stage::Attend { layer, token, position }
}

fn feed(layer: usize, token: usize) -> Stage {
    Stage::Feed { layer, token }
}

#[test]
fn tokens_pass_all_layers_one_by_one() {
    let expected = vec![
        attend(0, 0, 7),
        feed(0, 0),
        attend(1, 0, 7),
        feed(1, 0),
        attend(0, 1, 8),
        feed(0, 1),
        attend(1, 1, 8),
        feed(1, 1),
        Stage::Finish { token: 1 },
    ];
    assert_eq!(stages(Order::TokenByToken, 2, 2, 7), expected);
}

#[test]
fn layers_take_all_tokens_one_by_one() {
    let all = stages(Order::LayerByLayer, 2, 2, 0);
    let attends: Vec<&Stage> =
        all.iter().filter(|s| matches!(s, Stage::Attend { .. })).collect();
    assert_eq!(
        attends,
        vec![&attend(0, 0, 0), &attend(0, 1, 1), &attend(1, 0, 0), &attend(1, 1, 1)]
    );
}

#[test]
fn every_order_reaches_every_layer() {
    for order in [Order::Together, Order::LayerByLayer, Order::TokenByToken] {
        let all = stages(order, 3, 2, 0);
        for l in 0..3 {
            assert!(all.iter().any(|s| matches!(s, Stage::Attend { layer, .. } if *layer == l)));
            assert!(all.iter().any(|s| matches!(s, Stage::Feed { layer, .. } if *layer == l)));
        }
    }
}

#[test]
fn refusals_of_tokens_are_worded() {
    let detail = |r: Result<(), ArchError>| match r {
        Err(ArchError::InvalidConfig { detail }) => detail,
        other => panic!("unexpected answer: {other:?}"),
    };
    assert_eq!(detail(check_tokens(&vec![], 4, "Model forward")), "Model forward: empty token sequence");
    assert_eq!(
        detail(check_tokens(&vec![1, 9, 8], 4, "Model")),
        "token id 9 out of range (vocab_size=4)"
    );
    assert!(check_tokens(&vec![3], 4, "Model").is_ok());
    assert_eq!(count_known(&vec![1, 2, 4, 3], 4), 2);
}

#[test]
fn rows_are_put_in_a_row() {
    let table: Vec<u32> = (0..6).collect();
    let rows = embed_tokens(&table, 2, 3, &vec![2, 0, 2], "Model").expect("known tokens");
    assert_eq!(rows, vec![4, 5, 0, 1, 4, 5]);
    assert_eq!(embed_token(&table, 2, 3, 1, "token").expect("row"), vec![2, 3]);
    assert!(embed_token(&table, 2, 3, 3, "token").is_err());
    let pass = begin_pass(&table, 2, 3, &vec![1], "Model", Order::Together, 4, 9).expect("begins");
    assert_eq!(pass.states, vec![2, 3]);
    assert_eq!(pass.shape, PassShape { order: Order::Together, layers: 4, tokens: 1, start: 9 });
}

#[test]
fn failures_name_layer_and_part() {
    match layer_failed(3, "attn_q", "bad block") {
        ArchError::ForwardPassError { layer, message } => {
            assert_eq!(layer, 3);
            assert!(message.contains("attn_q") && message.contains("bad block"), "{message}");
        }
        other => panic!("unexpected error: {other:?}"),
    }
    match experts_failed(4, "bad shape") {
        ArchError::ForwardPassError { layer, message } => {
            assert_eq!(layer, 4);
            assert!(message.contains("MoE") && message.contains("bad shape"), "{message}");
        }
        other => panic!("unexpected error: {other:?}"),
    }
}

#[test]
fn heads_are_grouped() {
    assert_eq!(heads_per_kv(8, 2), 4);
    assert_eq!(heads_per_kv(8, 0), 1);
    assert_eq!(gqa_ratio(8, 3), 2);
    assert_eq!(gqa_ratio(2, 8), 1);
    assert_eq!(window_start(10, Some(4)), 6);
    assert_eq!(window_start(3, Some(4)), 0);
    assert_eq!(window_start(3, None), 0);
}

#[test]
fn slots_read_their_own_caches() {
    let slot = SlotShape { keys_len: 16, values_len: 12, position: 2 };
    let reads = slot_reads(&slot, 2, 4, 1);
    assert_eq!(reads.keys, vec![Span { start: 4, end: 8 }, Span { start: 12, end: 16 }]);
    assert_eq!(reads.values, vec![Span { start: 4, end: 8 }]);
    let empty = SlotShape { keys_len: 0, values_len: 0, position: 0 };
    let plan = plan_batched(16, 2, 4, &vec![slot, empty]).expect("queries of two slots");
    assert!(plan[0].is_some());
    assert!(plan[1].is_none());
    assert!(plan_batched(15, 2, 4, &vec![slot, empty]).is_err());
}

#[test]
fn tokens_end_after_their_last_layer() {
    let ends = |order, layers| {
        let shape = PassShape { order, layers, tokens: 2, start: 4 };
        let mut ended: Vec<Stage> = Vec::new();
        let mut advances = 0;
        let mut stage = shape.first();
        while stage != Stage::Done {
            if shape.ends_token(stage) {
                ended.push(stage);
            }
            if shape.advances_cache(stage) {
                advances += 1;
            }
            stage = shape.after(stage);
        }
        (shape.ended_at_once(), ended, advances)
    };
    let last = |token| Stage::Feed { layer: 2, token };
    assert_eq!(ends(Order::TokenByToken, 3), (0, vec![last(0), last(1)], 2));
    assert_eq!(ends(Order::LayerByLayer, 3), (0, vec![last(0), last(1)], 6));
    assert_eq!(ends(Order::Together, 3), (0, vec![last(0), last(1)], 0));
    assert_eq!(ends(Order::TokenByToken, 0), (2, vec![], 0));
}
