use marketx::{Contract, ContractError, Escrow, EscrowStatus};
use soroban_sdk::testutils::{
    Address as _, ContractFunctionSet, EnvTestConfig, MockAuth, MockAuthInvoke,
};
use soroban_sdk::{Address, Env, Error, Val, Vec};

/// A deployed contract with no entry points: the tests act in its place.
struct Market;

impl ContractFunctionSet for Market {
    fn call(&self, _func: &str, _env: Env, _args: &[Val]) -> Option<Val> {
        None
    }
}

fn deployed() -> (Env, Address) {
    let env = Env::new_with_config(EnvTestConfig { capture_snapshot_at_drop: false });
    let contract = env.register_contract(None, Market);
    (env, contract)
}

fn number(status: EscrowStatus) -> u32 {
    match status {
        EscrowStatus::Pending => 0,
        EscrowStatus::Released => 1,
        EscrowStatus::Disputed => 2,
        EscrowStatus::Refunded => 3,
    }
}

fn status(number: u32) -> EscrowStatus {
    match number {
        0 => EscrowStatus::Pending,
        1 => EscrowStatus::Released,
        2 => EscrowStatus::Disputed,
        _ => EscrowStatus::Refunded,
    }
}

fn save(env: &Env, id: u64, escrow: &Escrow) {
    let record = (escrow.buyer.clone(), escrow.seller.clone(), number(escrow.status));
    env.storage().persistent().set(&id, &record);
}

fn load(env: &Env, id: u64) -> Option<Escrow> {
    let record: Option<(Address, Address, u32)> = env.storage().persistent().get(&id);
    record.map(|(buyer, seller, number)| Escrow { buyer, seller, status: status(number) })
}

/// One transition request as a contract serves it: read, ask the host for
/// the authorization that is needed, decide, write.
fn serve_transition(env: &Env, id: u64, to: EscrowStatus) -> Result<(), ContractError> {
    let found = load(env, id);
    let granted = match Contract::authorization_needed(&found, to) {
        Some(who) => {
            who.require_auth();
            true
        }
        None => false,
    };
    let (write, answer) = Contract::transition_status(found, to, granted).unwrap();
    if let Some(escrow) = write {
        save(env, id, &escrow);
    }
    answer
}

fn create(env: &Env, contract: &Address, id: u64, status: EscrowStatus) -> Escrow {
    let escrow = Escrow { buyer: Address::generate(env), seller: Address::generate(env), status };
    env.as_contract(contract, || save(env, id, &escrow));
    escrow
}

fn stored(env: &Env, contract: &Address, id: u64) -> Result<Escrow, ContractError> {
    env.as_contract(contract, || Contract::try_get_escrow(load(env, id)))
}

fn authorize(env: &Env, contract: &Address, who: &Address) {
    env.mock_auths(&[MockAuth {
        address: who,
        invoke: &MockAuthInvoke {
            contract,
            fn_name: "",
            args: Vec::new(env),
            sub_invokes: &[],
        },
    }]);
}

#[test]
fn stored_escrow_reads_back_exactly() {
    let (env, contract) = deployed();
    let escrow = create(&env, &contract, 1, EscrowStatus::Pending);
    assert_eq!(stored(&env, &contract, 1), Ok(escrow));
    assert_eq!(stored(&env, &contract, 999), Err(ContractError::EscrowNotFound));
}

#[test]
fn host_grants_the_move_that_the_buyer_authorized() {
    let (env, contract) = deployed();
    let escrow = create(&env, &contract, 1, EscrowStatus::Pending);
    authorize(&env, &contract, &escrow.buyer);
    let answer = env.as_contract(&contract, || serve_transition(&env, 1, EscrowStatus::Disputed));
    assert_eq!(answer, Ok(()));
    assert_eq!(stored(&env, &contract, 1).unwrap().status, EscrowStatus::Disputed);
}

#[test]
fn unauthorized_move_aborts_and_changes_nothing() {
    let (env, contract) = deployed();
    let escrow = create(&env, &contract, 1, EscrowStatus::Pending);
    let outcome = env.try_as_contract::<Result<(), ContractError>, Error>(&contract, || {
        serve_transition(&env, 1, EscrowStatus::Released)
    });
    assert!(outcome.is_err());
    assert_eq!(stored(&env, &contract, 1), Ok(escrow));
}

#[test]
fn authorization_of_the_seller_does_not_suffice() {
    let (env, contract) = deployed();
    let escrow = create(&env, &contract, 1, EscrowStatus::Pending);
    authorize(&env, &contract, &escrow.seller);
    let outcome = env.try_as_contract::<Result<(), ContractError>, Error>(&contract, || {
        serve_transition(&env, 1, EscrowStatus::Refunded)
    });
    assert!(outcome.is_err());
    assert_eq!(stored(&env, &contract, 1), Ok(escrow));
}

#[test]
fn invalid_move_asks_the_host_for_nothing() {
    let (env, contract) = deployed();
    let escrow = create(&env, &contract, 1, EscrowStatus::Refunded);
    let answer = env.as_contract(&contract, || serve_transition(&env, 1, EscrowStatus::Pending));
    assert_eq!(answer, Err(ContractError::InvalidTransition));
    let missing = env.as_contract(&contract, || serve_transition(&env, 2, EscrowStatus::Released));
    assert_eq!(missing, Err(ContractError::EscrowNotFound));
    assert_eq!(stored(&env, &contract, 1), Ok(escrow));
}
