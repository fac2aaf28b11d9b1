//! The HTTP-facing core of the endpoints: the mutation gate that every
//! increase and decrease must pass, the handlers that compose gate and
//! ledger, and the mapping of each error to its status code. The transport
//! itself (routing, JSON bodies, headers) stays outside; the handlers take
//! and return plain values.

use vstd::prelude::*;
use vstd::string::StrSliceExecFns;
use crate::{AuthError, GateError, LedgerError};
use crate::autenticacion::{
    principal_de, plazo_de, token_aceptado, token_bien_formado, verificar_token,
    UsuarioAutenticado,
};
use crate::base_datos::{transicion_aumentar, transicion_disminuir, RepositorioInventario};
use crate::texto::{igual_str, recortado, recortar};

verus! {

/// The body of a successful stock read or mutation.
#[derive(Debug, Clone, PartialEq, Eq)]
pub struct RespuestaStock {
    pub id_producto: String,
    pub cantidad: i64,
}

/// The body of a mutation request.
#[derive(Debug, Clone, Copy, PartialEq, Eq, Structural)]
pub struct PeticionCambioStock {
    pub cantidad: i64,
}

/// Everything a mutation endpoint can answer besides success.
#[derive(Debug, Clone, Copy, PartialEq, Eq, Structural)]
pub enum ErrorApi {
    /// The request was rejected before the ledger was touched.
    Autenticacion(GateError),
    /// The ledger refused the mutation.
    Inventario(LedgerError),
}

impl ErrorApi {
    /// The status code the error maps to: every credential problem is 401,
    /// an invalid amount 400, insufficient stock 409, a storage fault 500.
    pub fn codigo_http(&self) -> (r: u16)
        ensures
            r == match *self {
                ErrorApi::Autenticacion(g) => if g == GateError::InvalidAmount {
                    400u16
                } else {
                    401u16
                },
                ErrorApi::Inventario(e) => if e == LedgerError::InsufficientStock {
                    409u16
                } else {
                    500u16
                },
            },
    {
        match self {
            ErrorApi::Autenticacion(GateError::InvalidAmount) => 400,
            ErrorApi::Autenticacion(_) => 401,
            ErrorApi::Inventario(LedgerError::InsufficientStock) => 409,
            ErrorApi::Inventario(LedgerError::Unavailable) => 500,
        }
    }
}

/// Whether a credential header value uses the Bearer scheme.
pub open spec fn esquema_bearer(v: Seq<char>) -> bool {
    v.len() >= 7 && v.subrange(0, 7) == "Bearer "@
}

/// The token a Bearer header carries: what follows the scheme, trimmed.
pub open spec fn token_de(v: Seq<char>) -> Seq<char> {
    recortado(v.subrange(7, v.len() as int))
}

/// The mutation gate: a non-positive amount is rejected outright, a
/// credential header must be present and use the Bearer scheme, and the
/// token it carries must be accepted by the verifier; exactly then does a
/// principal carrying the token's claims come out.
pub fn autorizar_y_validar(
    encabezado: Option<&str>,
    cantidad: i64,
    clave: &str,
    ahora: u64,
) -> (r: Result<UsuarioAutenticado, GateError>)
    ensures
        cantidad <= 0 ==> r == Err::<UsuarioAutenticado, GateError>(GateError::InvalidAmount),
        cantidad > 0 ==> match encabezado {
            None => r == Err::<UsuarioAutenticado, GateError>(GateError::MissingCredential),
            Some(v) => {
                &&& (!esquema_bearer(v@) ==> r == Err::<UsuarioAutenticado, GateError>(
                    GateError::MalformedCredential,
                ))
                &&& (esquema_bearer(v@) ==> ({
                    let t = token_de(v@);
                    match r {
                        Ok(u) => token_aceptado(clave@, t, ahora) && principal_de(t, u),
                        Err(GateError::Unauthorized(AuthError::Expired)) => token_bien_formado(
                            clave@,
                            t,
                        ) && plazo_de(t) <= ahora,
                        Err(GateError::Unauthorized(AuthError::Malformed)) => !token_bien_formado(
                            clave@,
                            t,
                        ),
                        _ => false,
                    }
                }))
            },
        },
{
    if cantidad <= 0 {
        return Err(GateError::InvalidAmount);
    }
    let valor = match encabezado {
        Some(v) => v,
        None => {
            return Err(GateError::MissingCredential);
        },
    };
    let largo = valor.unicode_len();
    if largo < 7 {
        return Err(GateError::MalformedCredential);
    }
    let prefijo = valor.substring_char(0, 7);
    if !igual_str(prefijo, "Bearer ") {
        return Err(GateError::MalformedCredential);
    }
    let resto = valor.substring_char(7, largo);
    let token = recortar(resto);
    match verificar_token(token, clave, ahora) {
        Ok(datos) => Ok(UsuarioAutenticado::desde_datos(datos)),
        Err(e) => Err(GateError::Unauthorized(e)),
    }
}

/// Serves the stock read endpoint: the current quantity of a product, with
/// no credential required.
pub fn obtener_stock_producto(repo: &RepositorioInventario, id_producto: &str) -> (r:
    RespuestaStock)
    requires
        repo.wf(),
    ensures
        r.id_producto@ == id_producto@,
        r.cantidad == repo.cantidad_de(id_producto@),
        r.cantidad >= 0,
{
    let cantidad = repo.obtener_cantidad(id_producto);
    RespuestaStock { id_producto: id_producto.to_owned(), cantidad }
}

/// Serves the stock increase endpoint: the guard must run to completion
/// first, then the ledger applies one atomic increase.
pub fn aumentar_stock_producto(
    repo: &mut RepositorioInventario,
    encabezado: Option<&str>,
    clave: &str,
    ahora: u64,
    id_producto: &str,
    cuerpo: PeticionCambioStock,
) -> (r: Result<RespuestaStock, ErrorApi>)
    requires
        old(repo).wf(),
        cuerpo.cantidad > 0 ==> old(repo).cantidad_de(id_producto@) + cuerpo.cantidad
            <= i64::MAX,
    ensures
        final(repo).wf(),
        cuerpo.cantidad <= 0 ==> r == Err::<RespuestaStock, ErrorApi>(
            ErrorApi::Autenticacion(GateError::InvalidAmount),
        ),
        cuerpo.cantidad > 0 ==> match encabezado {
            None => r == Err::<RespuestaStock, ErrorApi>(
                ErrorApi::Autenticacion(GateError::MissingCredential),
            ),
            Some(v) => {
                &&& (!esquema_bearer(v@) ==> r == Err::<RespuestaStock, ErrorApi>(
                    ErrorApi::Autenticacion(GateError::MalformedCredential),
                ))
                &&& (esquema_bearer(v@) ==> ({
                    let t = token_de(v@);
                    match r {
                        Ok(_) => token_aceptado(clave@, t, ahora),
                        Err(ErrorApi::Autenticacion(GateError::Unauthorized(
                            AuthError::Expired,
                        ))) => token_bien_formado(clave@, t) && plazo_de(t) <= ahora,
                        Err(ErrorApi::Autenticacion(GateError::Unauthorized(
                            AuthError::Malformed,
                        ))) => !token_bien_formado(clave@, t),
                        _ => false,
                    }
                }))
            },
        },
        r is Err ==> *final(repo) == *old(repo),
        r matches Ok(resp) ==> {
            &&& cuerpo.cantidad > 0
            &&& resp.id_producto@ == id_producto@
            &&& transicion_aumentar(
                *old(repo),
                *final(repo),
                id_producto@,
                cuerpo.cantidad as int,
                resp.cantidad as int,
            )
        },
{
    match autorizar_y_validar(encabezado, cuerpo.cantidad, clave, ahora) {
        Err(e) => Err(ErrorApi::Autenticacion(e)),
        Ok(_usuario) => {
            let cantidad = repo.aumentar_stock(id_producto, cuerpo.cantidad);
            Ok(RespuestaStock { id_producto: id_producto.to_owned(), cantidad })
        },
    }
}

/// Serves the stock decrease endpoint: the guard must run to completion
/// first, then the ledger applies one atomic decrease, which signals
/// insufficient stock rather than ever driving a quantity negative.
pub fn disminuir_stock_producto(
    repo: &mut RepositorioInventario,
    encabezado: Option<&str>,
    clave: &str,
    ahora: u64,
    id_producto: &str,
    cuerpo: PeticionCambioStock,
) -> (r: Result<RespuestaStock, ErrorApi>)
    requires
        old(repo).wf(),
    ensures
        final(repo).wf(),
        cuerpo.cantidad <= 0 ==> r == Err::<RespuestaStock, ErrorApi>(
            ErrorApi::Autenticacion(GateError::InvalidAmount),
        ),
        cuerpo.cantidad > 0 ==> match encabezado {
            None => r == Err::<RespuestaStock, ErrorApi>(
                ErrorApi::Autenticacion(GateError::MissingCredential),
            ),
            Some(v) => {
                &&& (!esquema_bearer(v@) ==> r == Err::<RespuestaStock, ErrorApi>(
                    ErrorApi::Autenticacion(GateError::MalformedCredential),
                ))
                &&& (esquema_bearer(v@) ==> ({
                    let t = token_de(v@);
                    match r {
                        Ok(_) => token_aceptado(clave@, t, ahora) && cuerpo.cantidad <= old(
                            repo,
                        ).cantidad_de(id_producto@),
                        Err(ErrorApi::Inventario(LedgerError::InsufficientStock)) => token_aceptado(
                            clave@,
                            t,
                            ahora,
                        ) && cuerpo.cantidad > old(repo).cantidad_de(id_producto@),
                        Err(ErrorApi::Autenticacion(GateError::Unauthorized(
                            AuthError::Expired,
                        ))) => token_bien_formado(clave@, t) && plazo_de(t) <= ahora,
                        Err(ErrorApi::Autenticacion(GateError::Unauthorized(
                            AuthError::Malformed,
                        ))) => !token_bien_formado(clave@, t),
                        _ => false,
                    }
                }))
            },
        },
        r is Err ==> *final(repo) == *old(repo),
        r matches Ok(resp) ==> {
            &&& cuerpo.cantidad > 0
            &&& resp.id_producto@ == id_producto@
            &&& transicion_disminuir(
                *old(repo),
                *final(repo),
                id_producto@,
                cuerpo.cantidad as int,
                Ok(resp.cantidad),
            )
        },
{
    match autorizar_y_validar(encabezado, cuerpo.cantidad, clave, ahora) {
        Err(e) => Err(ErrorApi::Autenticacion(e)),
        Ok(_usuario) => match repo.disminuir_stock(id_producto, cuerpo.cantidad) {
            Ok(cantidad) => Ok(
                RespuestaStock { id_producto: id_producto.to_owned(), cantidad },
            ),
            Err(e) => Err(ErrorApi::Inventario(e)),
        },
    }
}

} // verus!
