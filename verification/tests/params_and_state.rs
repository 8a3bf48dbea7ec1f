use provider_runtime::param_utils::IntoProviderParam;
use provider_runtime::state::{AsyncState, Outcome, State};

#[test]
fn unit_and_tuple_params_normalize() {
    let unit: () = ().into_param();
    assert_eq!(unit, ());
    let n: u32 = (42u32,).into_param();
    assert_eq!(n, 42);
    let s: String = (String::from("id"),).into_param();
    assert_eq!(s, "id");
}

#[test]
fn direct_params_pass_through() {
    let n: u64 = 7u64.into_param();
    assert_eq!(n, 7);
    let b: bool = true.into_param();
    assert!(b);
    let s: &str = "plain".into_param();
    assert_eq!(s, "plain");
    let owned: String = String::from("owned").into_param();
    assert_eq!(owned, "owned");
}

#[test]
fn state_predicates_match_variants() {
    let loading: State<u32, String> = State::Loading;
    let success: State<u32, String> = State::Success(3);
    let error: State<u32, String> = State::Error(String::from("boom"));
    assert!(loading.is_loading() && !loading.is_success() && !loading.is_error());
    assert!(!success.is_loading() && success.is_success() && !success.is_error());
    assert!(!error.is_loading() && !error.is_success() && error.is_error());
    assert_eq!(success.data(), Some(&3));
    assert_eq!(success.error(), None);
    assert_eq!(error.data(), None);
    assert_eq!(error.error(), Some(&String::from("boom")));
}

fn describe<S: AsyncState>(state: &S) -> &'static str {
    if state.is_loading() {
        "loading"
    } else if state.is_success() {
        "success"
    } else {
        "error"
    }
}

#[test]
fn async_state_trait_is_usable_generically() {
    let success: State<u32, String> = State::Success(3);
    assert_eq!(describe(&success), "success");
    assert_eq!(<State<u32, String> as AsyncState>::data(&success), Some(&3));
    let loading: State<u32, String> = State::Loading;
    assert_eq!(describe(&loading), "loading");
}

#[test]
fn state_map_transforms_only_success() {
    let success: State<u32, String> = State::Success(3);
    assert_eq!(success.map(|v| v * 2), State::Success(6));
    let error: State<u32, String> = State::Error(String::from("e"));
    assert_eq!(error.map(|v| v * 2), State::Error(String::from("e")));
    let loading: State<u32, String> = State::Loading;
    assert_eq!(loading.map(|v| v * 2), State::<u32, String>::Loading);
}

#[test]
fn state_map_err_transforms_only_error() {
    let error: State<u32, u32> = State::Error(4);
    assert_eq!(error.map_err(|e| e + 1), State::Error(5));
    let success: State<u32, u32> = State::Success(9);
    assert_eq!(success.map_err(|e| e + 1), State::<u32, u32>::Success(9));
}

#[test]
fn state_and_then_chains_success() {
    let success: State<u32, u32> = State::Success(10);
    let chained = success.and_then(|v| {
        if v > 5 {
            State::Success(v - 5)
        } else {
            State::Error(0)
        }
    });
    assert_eq!(chained, State::Success(5));
    let error: State<u32, u32> = State::Error(1);
    assert_eq!(error.and_then(|v| State::<u32, u32>::Success(v)), State::Error(1));
}

#[test]
fn outcomes_compare_by_variant_and_payload() {
    let a: Outcome<u32, String> = Outcome::Success(1);
    let b: Outcome<u32, String> = Outcome::Success(1);
    let c: Outcome<u32, String> = Outcome::Success(2);
    let d: Outcome<u32, String> = Outcome::Failure(String::from("x"));
    assert!(a == b);
    assert!(a != c);
    assert!(a != d);
    assert!(a.is_success() && !a.is_failure());
    assert!(d.is_failure() && !d.is_success());
    assert_eq!(a.clone(), a);
}
