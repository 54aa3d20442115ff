use vault::error::ContractError;
use vault::state::{share_denom, Parameters, PipelineState, Store};

#[test]
fn share_denom_is_derived_from_the_pool() {
    assert_eq!(share_denom(7), "gamm/pool/7");
    assert_eq!(share_denom(0), "gamm/pool/0");
    assert_eq!(share_denom(1234), "gamm/pool/1234");
    assert_eq!(share_denom(u64::MAX), "gamm/pool/18446744073709551615");
}

#[test]
fn new_parameters_take_no_fee() {
    let parameters = Parameters::new(7, 86400);
    assert_eq!(
        parameters,
        Parameters {
            pool_id: 7,
            lock_duration: 86400,
            fee: 0,
            share_denom: "gamm/pool/7".to_string(),
        }
    );
}

#[test]
fn nothing_can_be_read_before_it_was_written() {
    let store = Store::new();
    assert_eq!(store.load_parameters(), Err(ContractError::NotInitialized));
    assert_eq!(
        store.load_pipeline_state(),
        Err(ContractError::NotInitialized)
    );
}

#[test]
fn what_was_written_is_read() {
    let mut store = Store::new();
    store.save_parameters(Parameters::new(3, 10));
    assert_eq!(store.load_parameters(), Ok(Parameters::new(3, 10)));
    assert_eq!(
        store.load_pipeline_state(),
        Err(ContractError::NotInitialized)
    );
    let state = PipelineState {
        lock_id: 77,
        pending_unlock_amount: 500,
    };
    store.save_pipeline_state(state);
    assert_eq!(store.load_pipeline_state(), Ok(state));
    assert_eq!(store.load_parameters(), Ok(Parameters::new(3, 10)));
}

#[test]
fn the_pipeline_state_has_one_slot() {
    let mut store = Store::new();
    store.save_pipeline_state(PipelineState {
        lock_id: 1,
        pending_unlock_amount: 2,
    });
    store.save_pipeline_state(PipelineState {
        lock_id: 3,
        pending_unlock_amount: 4,
    });
    assert_eq!(
        store.load_pipeline_state(),
        Ok(PipelineState {
            lock_id: 3,
            pending_unlock_amount: 4,
        })
    );
}

#[test]
fn a_restored_store_holds_what_it_was_given() {
    let state = PipelineState {
        lock_id: 9,
        pending_unlock_amount: 0,
    };
    let store = Store::restore(Some(Parameters::new(5, 1)), Some(state));
    assert_eq!(store.load_parameters(), Ok(Parameters::new(5, 1)));
    assert_eq!(store.load_pipeline_state(), Ok(state));
    let empty = Store::restore(None, None);
    assert_eq!(empty, Store::new());
}
