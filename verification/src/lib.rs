//! Inventory stock service core: a token verifier, a mutation gate and a
//! stock ledger that keeps every quantity a non-negative integer and mutates
//! it only through atomic increase / decrease operations.
#![allow(unused_imports)]

use vstd::prelude::*;

pub mod autenticacion;
pub mod base_datos;
pub mod rutas_inventario;
pub mod texto;

verus! {

/// Everything a handler needs: the ledger and the shared signing secret,
/// both initialized once at startup and handed to every request.
pub struct EstadoAplicacion {
    pub repositorio_inventario: base_datos::RepositorioInventario,
    pub clave_jwt: autenticacion::ClaveJwtCompartida,
}

/// Failure of bearer-token verification. Both variants are rejected alike at
/// the boundary; they are distinguished only for diagnostics.
#[derive(Debug, Clone, Copy, PartialEq, Eq, Structural)]
pub enum AuthError {
    /// The token is unparsable, carries the wrong algorithm, or its signature
    /// does not match the shared secret.
    Malformed,
    /// The token parsed and its signature matched, but its expiry is not in
    /// the future.
    Expired,
}

/// Failure of the mutation gate that guards every stock mutation.
#[derive(Debug, Clone, Copy, PartialEq, Eq, Structural)]
pub enum GateError {
    /// No credential header was presented.
    MissingCredential,
    /// A credential header was presented but does not use the expected
    /// `Bearer` scheme or cannot be read as a token.
    MalformedCredential,
    /// The token itself was rejected by the verifier.
    Unauthorized(AuthError),
    /// The requested amount is not strictly positive.
    InvalidAmount,
}

/// Failure of a ledger operation.
#[derive(Debug, Clone, Copy, PartialEq, Eq, Structural)]
pub enum LedgerError {
    /// The requested decrease exceeds the current quantity; the ledger is
    /// left unchanged.
    InsufficientStock,
    /// The backing store could not complete the operation.
    Unavailable,
}

} // verus!
