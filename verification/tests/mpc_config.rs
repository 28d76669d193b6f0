use mpc_signing::mpc_config::MPCconfig;

#[test]
fn config_keeps_its_values() {
    let config = MPCconfig::new(2, 1, 3);
    assert_eq!(config.server_id(), 2);
    assert_eq!(config.threshold(), 1);
    assert_eq!(config.number_of_parties(), 3);
    let copy = config.clone();
    assert_eq!(copy.server_id(), 2);
    assert_eq!(copy.threshold(), 1);
    assert_eq!(copy.number_of_parties(), 3);
}
