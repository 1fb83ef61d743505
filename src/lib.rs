//! A constant-product market maker over two token vaults whose balances live
//! in external ledgers. The library holds the vault bookkeeping and decides
//! every step of the swap and deposit choreographies; the host runs the
//! asynchronous ledger calls that those steps ask for and reports back.
pub mod contract;
pub mod laws;
pub mod math;
