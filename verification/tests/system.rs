use std::sync::Arc;

use sea_orm::DatabaseConnection;

use trustify::system::System;

#[test]
fn system_wraps_the_given_connection() {
    let conn = Arc::new(DatabaseConnection::default());
    let system = System::new(conn.clone());
    assert!(Arc::ptr_eq(system.db(), &conn));
}

#[test]
fn cloning_the_system_shares_the_connection() {
    let conn = Arc::new(DatabaseConnection::default());
    let system = System::new(conn.clone());
    let cloned = system.clone();
    assert!(Arc::ptr_eq(cloned.db(), &conn));
    assert!(Arc::ptr_eq(system.db(), cloned.db()));
}
