//! Ledger and handler behaviour on concrete values.

use inventory_service::base_datos::RepositorioInventario;
use inventory_service::rutas_inventario::{
    aumentar_stock_producto, disminuir_stock_producto, obtener_stock_producto, ErrorApi,
    PeticionCambioStock,
};
use inventory_service::{GateError, LedgerError};

#[test]
fn escenario_ejemplo() {
    let mut repo = RepositorioInventario::nuevo();
    assert_eq!(repo.aumentar_stock("sku-1", 5), 5);
    assert_eq!(repo.disminuir_stock("sku-1", 2), Ok(3));
    assert_eq!(
        repo.disminuir_stock("sku-1", 10),
        Err(LedgerError::InsufficientStock)
    );
    assert_eq!(repo.obtener_cantidad("sku-1"), 3);
}

#[test]
fn producto_nunca_escrito_da_cero() {
    let mut repo = RepositorioInventario::nuevo();
    assert_eq!(repo.obtener_cantidad("desconocido"), 0);
    repo.aumentar_stock("otro", 9);
    assert_eq!(repo.obtener_cantidad("desconocido"), 0);
}

#[test]
fn aumentos_y_disminuciones_acumulan() {
    let mut repo = RepositorioInventario::nuevo();
    assert_eq!(repo.aumentar_stock("p", 3), 3);
    assert_eq!(repo.aumentar_stock("p", 4), 7);
    assert_eq!(repo.disminuir_stock("p", 5), Ok(2));
    assert_eq!(repo.aumentar_stock("p", 1), 3);
    assert_eq!(repo.obtener_cantidad("p"), 3);
}

#[test]
fn productos_independientes() {
    let mut repo = RepositorioInventario::nuevo();
    repo.aumentar_stock("a", 2);
    repo.aumentar_stock("b", 5);
    assert_eq!(repo.disminuir_stock("b", 1), Ok(4));
    assert_eq!(repo.obtener_cantidad("a"), 2);
    assert_eq!(repo.obtener_cantidad("b"), 4);
}

#[test]
fn disminucion_insuficiente_no_cambia_nada() {
    let mut repo = RepositorioInventario::nuevo();
    repo.aumentar_stock("p", 5);
    assert_eq!(
        repo.disminuir_stock("p", 7),
        Err(LedgerError::InsufficientStock)
    );
    assert_eq!(repo.obtener_cantidad("p"), 5);
}

#[test]
fn dos_disminuciones_contra_diez() {
    // Two decreases of 7 against a quantity of 10, serialized in the order
    // the scheduler picked: exactly one succeeds and the final quantity is 3.
    let mut repo = RepositorioInventario::nuevo();
    repo.aumentar_stock("p", 10);
    let primera = repo.disminuir_stock("p", 7);
    let segunda = repo.disminuir_stock("p", 7);
    assert_eq!(primera, Ok(3));
    assert_eq!(segunda, Err(LedgerError::InsufficientStock));
    assert_eq!(repo.obtener_cantidad("p"), 3);
}

#[test]
fn establecer_cantidad_es_upsert() {
    let mut repo = RepositorioInventario::nuevo();
    assert_eq!(repo.establecer_cantidad("p", 42), 42);
    assert_eq!(repo.obtener_cantidad("p"), 42);
    assert_eq!(repo.establecer_cantidad("p", 7), 7);
    assert_eq!(repo.obtener_cantidad("p"), 7);
}

#[test]
fn monto_no_positivo_rechazado_sin_efecto() {
    let mut repo = RepositorioInventario::nuevo();
    repo.aumentar_stock("p", 5);
    for cantidad in [0i64, -3] {
        let r = aumentar_stock_producto(
            &mut repo,
            None,
            "secreto",
            0,
            "p",
            PeticionCambioStock { cantidad },
        );
        assert_eq!(
            r,
            Err(ErrorApi::Autenticacion(GateError::InvalidAmount))
        );
        let r = disminuir_stock_producto(
            &mut repo,
            None,
            "secreto",
            0,
            "p",
            PeticionCambioStock { cantidad },
        );
        assert_eq!(
            r,
            Err(ErrorApi::Autenticacion(GateError::InvalidAmount))
        );
    }
    assert_eq!(repo.obtener_cantidad("p"), 5);
}

#[test]
fn lectura_no_pide_credencial() {
    let mut repo = RepositorioInventario::nuevo();
    repo.aumentar_stock("p", 8);
    let r = obtener_stock_producto(&repo, "p");
    assert_eq!(r.id_producto, "p");
    assert_eq!(r.cantidad, 8);
    let r = obtener_stock_producto(&repo, "q");
    assert_eq!(r.cantidad, 0);
}

#[test]
fn codigos_http_por_error() {
    assert_eq!(
        ErrorApi::Autenticacion(GateError::InvalidAmount).codigo_http(),
        400
    );
    assert_eq!(
        ErrorApi::Autenticacion(GateError::MissingCredential).codigo_http(),
        401
    );
    assert_eq!(
        ErrorApi::Autenticacion(GateError::MalformedCredential).codigo_http(),
        401
    );
    assert_eq!(
        ErrorApi::Autenticacion(GateError::Unauthorized(
            inventory_service::AuthError::Expired
        ))
        .codigo_http(),
        401
    );
    assert_eq!(
        ErrorApi::Inventario(LedgerError::InsufficientStock).codigo_http(),
        409
    );
    assert_eq!(ErrorApi::Inventario(LedgerError::Unavailable).codigo_http(), 500);
}
