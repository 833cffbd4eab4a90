use regex_replacer::{ExecutionMode, RegexReplacer, ReplacerError, WorkerPool};

fn texts(items: &[&str]) -> Vec<String> {
    items.iter().map(|s| String::from(*s)).collect()
}

fn digit_letter_rules() -> Vec<(&'static str, &'static str)> {
    Vec::from([(r"\d+", "-"), (r"[a-z]+", "+")])
}

fn build_error() -> rayon::ThreadPoolBuildError {
    let _ = rayon::ThreadPoolBuilder::new().num_threads(2).build_global();
    match rayon::ThreadPoolBuilder::new().num_threads(2).build_global() {
        Err(e) => e,
        Ok(()) => panic!("the global pool was initialised twice"),
    }
}

#[test]
fn it_works() {
    let mut rr = RegexReplacer::new(Vec::from([(r"\d+", "-"), (r"[a-z]+", "+")]), 2).unwrap();
    let res = rr.transform(Vec::from([String::from("hbkjfsbiu2746928764nbdkfasd")]));
    assert_eq!(res[0], "+-+");
}

#[test]
fn sequential_gives_the_same_text_as_pooled() {
    let input = texts(&["hbkjfsbiu2746928764nbdkfasd"]);
    let mut seq = RegexReplacer::new(digit_letter_rules(), 1).unwrap();
    assert_eq!(seq.execution_mode(), ExecutionMode::Sequential);
    let expected = seq.transform(input.clone());
    assert_eq!(expected, texts(&["+-+"]));
    for n in [2usize, 3, 4, 8] {
        let mut pooled = RegexReplacer::new(digit_letter_rules(), n).unwrap();
        assert_eq!(pooled.execution_mode(), ExecutionMode::Pooled(n));
        assert_eq!(pooled.transform(input.clone()), expected);
    }
}

#[test]
fn zero_and_one_jobs_mean_sequential() {
    let zero = RegexReplacer::new(digit_letter_rules(), 0).unwrap();
    assert_eq!(zero.execution_mode(), ExecutionMode::Sequential);
    let one = RegexReplacer::new(digit_letter_rules(), 1).unwrap();
    assert_eq!(one.execution_mode(), ExecutionMode::Sequential);
}

#[test]
fn batch_keeps_length_and_order() {
    let input = texts(&["abc", "123", "a1b2", "", "X9y"]);
    let expected = texts(&["+", "-", "+-+-", "", "X-+"]);
    let mut seq = RegexReplacer::new(digit_letter_rules(), 1).unwrap();
    assert_eq!(seq.transform(input.clone()), expected);
    let mut pooled = RegexReplacer::new(digit_letter_rules(), 3).unwrap();
    assert_eq!(pooled.transform(input.clone()), expected);
}

#[test]
fn large_batch_comes_back_in_input_order() {
    let input: Vec<String> = (0..500).map(|i| format!("item{}", i)).collect();
    let mut pooled = RegexReplacer::new(Vec::from([(r"item(\d+)", "<$1>")]), 4).unwrap();
    let out = pooled.transform(input);
    assert_eq!(out.len(), 500);
    for (i, t) in out.iter().enumerate() {
        assert_eq!(t, &format!("<{}>", i));
    }
}

#[test]
fn permuting_the_batch_permutes_the_output() {
    let input = texts(&["abc", "123", "a1b2", "zz 9"]);
    let order = [2usize, 0, 3, 1];
    let permuted: Vec<String> = order.iter().map(|&k| input[k].clone()).collect();
    for n in [1usize, 4] {
        let mut rr = RegexReplacer::new(digit_letter_rules(), n).unwrap();
        let out = rr.transform(input.clone());
        let out_permuted = rr.transform(permuted.clone());
        assert_eq!(out.len(), input.len());
        let expected: Vec<String> = order.iter().map(|&k| out[k].clone()).collect();
        assert_eq!(out_permuted, expected);
    }
}

#[test]
fn empty_rule_set_changes_nothing() {
    for n in [0usize, 1, 4] {
        let mut rr = RegexReplacer::new(Vec::new(), n).unwrap();
        assert_eq!(rr.transform(texts(&["abc", ""])), texts(&["abc", ""]));
    }
}

#[test]
fn empty_batch_gives_empty_batch() {
    for n in [1usize, 4] {
        let mut rr = RegexReplacer::new(digit_letter_rules(), n).unwrap();
        assert_eq!(rr.transform(Vec::new()), Vec::<String>::new());
    }
}

#[test]
fn switching_modes_never_changes_the_output() {
    let input = texts(&["hbkjfsbiu2746928764nbdkfasd", "42", "", "a-b"]);
    let expected = texts(&["+-+", "-", "", "+-+"]);
    let mut rr = RegexReplacer::new(digit_letter_rules(), 2).unwrap();
    assert_eq!(rr.transform(input.clone()), expected);
    rr.to_single_thread();
    assert_eq!(rr.execution_mode(), ExecutionMode::Sequential);
    assert_eq!(rr.transform(input.clone()), expected);
    assert_eq!(rr.to_pooled(4), Ok(()));
    assert_eq!(rr.execution_mode(), ExecutionMode::Pooled(4));
    assert_eq!(rr.transform(input.clone()), expected);
    rr.to_single_thread();
    assert_eq!(rr.execution_mode(), ExecutionMode::Sequential);
    assert_eq!(rr.transform(input.clone()), expected);
}

#[test]
fn to_single_thread_is_idempotent() {
    let mut rr = RegexReplacer::new(digit_letter_rules(), 1).unwrap();
    rr.to_single_thread();
    rr.to_single_thread();
    assert_eq!(rr.execution_mode(), ExecutionMode::Sequential);
    assert_eq!(rr.transform(texts(&["a1"])), texts(&["+-"]));
}

#[test]
fn to_pooled_with_one_or_no_worker_is_sequential() {
    let mut rr = RegexReplacer::new(digit_letter_rules(), 4).unwrap();
    assert_eq!(rr.to_pooled(1), Ok(()));
    assert_eq!(rr.execution_mode(), ExecutionMode::Sequential);
    assert_eq!(rr.to_pooled(3), Ok(()));
    assert_eq!(rr.execution_mode(), ExecutionMode::Pooled(3));
    assert_eq!(rr.to_pooled(0), Ok(()));
    assert_eq!(rr.execution_mode(), ExecutionMode::Sequential);
    assert_eq!(rr.transform(texts(&["a1"])), texts(&["+-"]));
}

#[test]
fn malformed_pattern_fails_construction() {
    for n in [0usize, 1, 4] {
        let r = RegexReplacer::new(Vec::from([("(", "x")]), n);
        assert_eq!(
            r.err(),
            Some(ReplacerError::PatternCompile { index: 0, pattern: String::from("(") })
        );
    }
}

#[test]
fn first_malformed_pattern_is_reported() {
    let r = RegexReplacer::new(Vec::from([("a+", "x"), ("[a-", "y"), ("(", "z")]), 1);
    assert_eq!(
        r.err(),
        Some(ReplacerError::PatternCompile { index: 1, pattern: String::from("[a-") })
    );
}

#[test]
fn oversized_pattern_fails_construction() {
    let r = RegexReplacer::new(Vec::from([(r"\w{1000}", "x")]), 1);
    assert!(matches!(r, Err(ReplacerError::PatternCompile { index: 0, .. })));
}

#[test]
fn install_pool_takes_a_started_pool() {
    let mut rr = RegexReplacer::new(digit_letter_rules(), 1).unwrap();
    assert_eq!(rr.install_pool(WorkerPool::provision(3)), Ok(()));
    assert_eq!(rr.execution_mode(), ExecutionMode::Pooled(3));
    assert_eq!(rr.transform(texts(&["a1", "2b"])), texts(&["+-", "-+"]));
}

#[test]
fn install_pool_lets_a_single_worker_pool_go() {
    let mut rr = RegexReplacer::new(digit_letter_rules(), 4).unwrap();
    assert_eq!(rr.install_pool(WorkerPool::provision(1)), Ok(()));
    assert_eq!(rr.execution_mode(), ExecutionMode::Sequential);
}

#[test]
fn failed_provision_keeps_the_prior_mode() {
    let mut rr = RegexReplacer::new(digit_letter_rules(), 2).unwrap();
    let failed = WorkerPool::from_built(Err(build_error()), 6);
    assert_eq!(rr.install_pool(failed), Err(ReplacerError::PoolProvision { workers: 6 }));
    assert_eq!(rr.execution_mode(), ExecutionMode::Pooled(2));
    assert_eq!(rr.transform(texts(&["a1"])), texts(&["+-"]));

    let mut seq = RegexReplacer::new(digit_letter_rules(), 1).unwrap();
    let failed = WorkerPool::from_built(Err(build_error()), 3);
    assert_eq!(seq.install_pool(failed), Err(ReplacerError::PoolProvision { workers: 3 }));
    assert_eq!(seq.execution_mode(), ExecutionMode::Sequential);
}

#[test]
fn pooled_engine_runs_the_threads_asked_for() {
    for n in [2usize, 3, 8] {
        let mut rr = RegexReplacer::new(Vec::from([("a", "b")]), n).unwrap();
        assert_eq!(rr.execution_mode(), ExecutionMode::Pooled(n));
        assert_eq!(rr.current_pool_threads(), Some(n));
        assert_eq!(rr.transform(texts(&["aa", "ca"])), texts(&["bb", "cb"]));
        assert_eq!(rr.current_pool_threads(), Some(n));
    }
}

#[test]
fn sequential_engine_runs_no_pool() {
    for n in [0usize, 1] {
        let rr = RegexReplacer::new(digit_letter_rules(), n).unwrap();
        assert_eq!(rr.current_pool_threads(), None);
    }
}

#[test]
fn switching_modes_changes_the_threads_that_run() {
    let mut rr = RegexReplacer::new(digit_letter_rules(), 2).unwrap();
    assert_eq!(rr.current_pool_threads(), Some(2));
    rr.to_single_thread();
    assert_eq!(rr.current_pool_threads(), None);
    assert_eq!(rr.to_pooled(4), Ok(()));
    assert_eq!(rr.current_pool_threads(), Some(4));
    assert_eq!(rr.to_pooled(1), Ok(()));
    assert_eq!(rr.current_pool_threads(), None);
    assert_eq!(rr.install_pool(WorkerPool::provision(5)), Ok(()));
    assert_eq!(rr.current_pool_threads(), Some(5));
}

#[test]
fn failed_provision_keeps_the_prior_pool() {
    let mut rr = RegexReplacer::new(digit_letter_rules(), 3).unwrap();
    let failed = WorkerPool::from_built(Err(build_error()), 6);
    assert_eq!(rr.install_pool(failed), Err(ReplacerError::PoolProvision { workers: 6 }));
    assert_eq!(rr.current_pool_threads(), Some(3));
}
