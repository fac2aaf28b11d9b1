//! Token verification against real HS256 tokens, and the mutation gate
//! around it.

use base64::engine::general_purpose::URL_SAFE_NO_PAD;
use base64::Engine;
use jsonwebtoken::{encode, Algorithm, EncodingKey, Header};

use inventory_service::autenticacion::{verificar_token, ClaveJwtCompartida};
use inventory_service::base_datos::RepositorioInventario;
use inventory_service::rutas_inventario::{
    aumentar_stock_producto, autorizar_y_validar, disminuir_stock_producto, ErrorApi,
    PeticionCambioStock,
};
use inventory_service::{AuthError, GateError};

const AHORA: u64 = 1_700_000_000;

fn reclamos(sub: &str, exp: u64) -> serde_json::Value {
    let mut mapa = serde_json::Map::new();
    mapa.insert(
        "sub".to_string(),
        serde_json::Value::String(sub.to_string()),
    );
    mapa.insert("exp".to_string(), serde_json::Value::from(exp));
    serde_json::Value::Object(mapa)
}

fn token_hs256(claims: &serde_json::Value, secreto: &str) -> String {
    encode(
        &Header::new(Algorithm::HS256),
        claims,
        &EncodingKey::from_secret(secreto.as_bytes()),
    )
    .unwrap()
}

#[test]
fn token_valido_es_aceptado() {
    let token = token_hs256(&reclamos("usuario-1", AHORA + 60), "secreto");
    let datos = verificar_token(&token, "secreto", AHORA).unwrap();
    assert_eq!(datos.sub, "usuario-1");
    assert_eq!(datos.exp, AHORA + 60);
    assert_eq!(datos.correo, None);
    assert_eq!(datos.rol, None);
}

#[test]
fn token_con_correo_y_rol() {
    let mut claims = reclamos("usuario-2", AHORA + 60);
    let mapa = claims.as_object_mut().unwrap();
    mapa.insert(
        "correo".to_string(),
        serde_json::Value::String("u@ejemplo.com".to_string()),
    );
    mapa.insert(
        "rol".to_string(),
        serde_json::Value::String("admin".to_string()),
    );
    let token = token_hs256(&claims, "secreto");
    let datos = verificar_token(&token, "secreto", AHORA).unwrap();
    assert_eq!(datos.correo.as_deref(), Some("u@ejemplo.com"));
    assert_eq!(datos.rol.as_deref(), Some("admin"));
}

#[test]
fn token_con_otro_secreto_es_rechazado() {
    let token = token_hs256(&reclamos("usuario-1", AHORA + 60), "otro-secreto");
    assert_eq!(
        verificar_token(&token, "secreto", AHORA),
        Err(AuthError::Malformed)
    );
}

#[test]
fn token_expirado_es_rechazado() {
    let token = token_hs256(&reclamos("usuario-1", AHORA - 1), "secreto");
    assert_eq!(
        verificar_token(&token, "secreto", AHORA),
        Err(AuthError::Expired)
    );
    // The expiry must lie strictly in the future.
    let token = token_hs256(&reclamos("usuario-1", AHORA), "secreto");
    assert_eq!(
        verificar_token(&token, "secreto", AHORA),
        Err(AuthError::Expired)
    );
    let token = token_hs256(&reclamos("usuario-1", AHORA + 1), "secreto");
    assert!(verificar_token(&token, "secreto", AHORA).is_ok());
}

#[test]
fn token_con_otro_algoritmo_es_rechazado() {
    let claims = reclamos("usuario-1", AHORA + 60);
    let token = encode(
        &Header::new(Algorithm::HS384),
        &claims,
        &EncodingKey::from_secret("secreto".as_bytes()),
    )
    .unwrap();
    assert_eq!(
        verificar_token(&token, "secreto", AHORA),
        Err(AuthError::Malformed)
    );
}

#[test]
fn confusion_de_algoritmo_es_rechazada() {
    // A token whose header claims RS256 but whose signature is a valid
    // HS256 signature under the shared secret must still be rejected: the
    // verifier goes by the configured algorithm, never by the token's claim.
    let encabezado = URL_SAFE_NO_PAD.encode(b"{\"alg\":\"RS256\",\"typ\":\"JWT\"}");
    let carga = URL_SAFE_NO_PAD.encode(
        format!("{{\"sub\":\"usuario-1\",\"exp\":{}}}", AHORA + 60).as_bytes(),
    );
    let mensaje = format!("{encabezado}.{carga}");
    let firma = jsonwebtoken::crypto::sign(
        mensaje.as_bytes(),
        &EncodingKey::from_secret("secreto".as_bytes()),
        Algorithm::HS256,
    )
    .unwrap();
    let token = format!("{mensaje}.{firma}");
    assert_eq!(
        verificar_token(&token, "secreto", AHORA),
        Err(AuthError::Malformed)
    );
}

#[test]
fn texto_suelto_es_rechazado() {
    for t in ["", "no-es-un-jwt", "a.b", "..", "a.b.c"] {
        assert_eq!(verificar_token(t, "secreto", AHORA), Err(AuthError::Malformed));
    }
}

#[test]
fn carga_mal_codificada_es_rechazada() {
    // A header and signature of a real token around a payload that is not
    // base64url, and one whose bytes are not JSON.
    let encabezado = URL_SAFE_NO_PAD.encode(b"{\"alg\":\"HS256\",\"typ\":\"JWT\"}");
    let token = format!("{encabezado}.!no-base64!.firma");
    assert_eq!(verificar_token(&token, "secreto", AHORA), Err(AuthError::Malformed));
    let carga = URL_SAFE_NO_PAD.encode(b"{esto no es json");
    let token = format!("{encabezado}.{carga}.firma");
    assert_eq!(verificar_token(&token, "secreto", AHORA), Err(AuthError::Malformed));
}

#[test]
fn reclamos_incompletos_son_rechazados() {
    let mut claims = reclamos("usuario-1", AHORA + 60);
    claims.as_object_mut().unwrap().remove("sub");
    let token = token_hs256(&claims, "secreto");
    assert_eq!(verificar_token(&token, "secreto", AHORA), Err(AuthError::Malformed));

    let mut claims = reclamos("usuario-1", AHORA + 60);
    claims.as_object_mut().unwrap().remove("exp");
    let token = token_hs256(&claims, "secreto");
    assert_eq!(verificar_token(&token, "secreto", AHORA), Err(AuthError::Malformed));
}

#[test]
fn puerta_exige_credencial() {
    let r = autorizar_y_validar(None, 5, "secreto", AHORA);
    assert_eq!(r.unwrap_err(), GateError::MissingCredential);
    let r = autorizar_y_validar(Some("Token abc"), 5, "secreto", AHORA);
    assert_eq!(r.unwrap_err(), GateError::MalformedCredential);
    let r = autorizar_y_validar(Some("Bearer"), 5, "secreto", AHORA);
    assert_eq!(r.unwrap_err(), GateError::MalformedCredential);
}

#[test]
fn puerta_acepta_bearer_valido() {
    let token = token_hs256(&reclamos("usuario-7", AHORA + 60), "secreto");
    let encabezado = format!("Bearer {token}");
    let usuario = autorizar_y_validar(Some(&encabezado), 5, "secreto", AHORA).unwrap();
    assert_eq!(usuario.id_usuario, "usuario-7");
    // Surrounding whitespace around the token is tolerated.
    let encabezado = format!("Bearer   {token}  ");
    let usuario = autorizar_y_validar(Some(&encabezado), 5, "secreto", AHORA).unwrap();
    assert_eq!(usuario.id_usuario, "usuario-7");
}

#[test]
fn mutacion_con_token_invalido_da_401() {
    let mut repo = RepositorioInventario::nuevo();
    repo.aumentar_stock("sku-1", 10);
    let ajeno = token_hs256(&reclamos("usuario-1", AHORA + 60), "otro-secreto");
    let encabezado = format!("Bearer {ajeno}");
    let r = aumentar_stock_producto(
        &mut repo,
        Some(&encabezado),
        "secreto",
        AHORA,
        "sku-1",
        PeticionCambioStock { cantidad: 3 },
    );
    assert_eq!(
        r,
        Err(ErrorApi::Autenticacion(GateError::Unauthorized(
            AuthError::Malformed
        )))
    );
    let caducado = token_hs256(&reclamos("usuario-1", AHORA - 60), "secreto");
    let encabezado = format!("Bearer {caducado}");
    let r = disminuir_stock_producto(
        &mut repo,
        Some(&encabezado),
        "secreto",
        AHORA,
        "sku-1",
        PeticionCambioStock { cantidad: 3 },
    );
    let e = r.unwrap_err();
    assert_eq!(
        e,
        ErrorApi::Autenticacion(GateError::Unauthorized(AuthError::Expired))
    );
    assert_eq!(e.codigo_http(), 401);
    assert_eq!(repo.obtener_cantidad("sku-1"), 10);
}

#[test]
fn mutacion_con_token_valido_pasa() {
    let mut repo = RepositorioInventario::nuevo();
    let token = token_hs256(&reclamos("usuario-1", AHORA + 60), "secreto");
    let encabezado = format!("Bearer {token}");
    let r = aumentar_stock_producto(
        &mut repo,
        Some(&encabezado),
        "secreto",
        AHORA,
        "sku-1",
        PeticionCambioStock { cantidad: 5 },
    )
    .unwrap();
    assert_eq!(r.id_producto, "sku-1");
    assert_eq!(r.cantidad, 5);
    let r = disminuir_stock_producto(
        &mut repo,
        Some(&encabezado),
        "secreto",
        AHORA,
        "sku-1",
        PeticionCambioStock { cantidad: 2 },
    )
    .unwrap();
    assert_eq!(r.cantidad, 3);
    let r = disminuir_stock_producto(
        &mut repo,
        Some(&encabezado),
        "secreto",
        AHORA,
        "sku-1",
        PeticionCambioStock { cantidad: 10 },
    );
    assert_eq!(
        r.map(|x| x.cantidad),
        Err(ErrorApi::Inventario(
            inventory_service::LedgerError::InsufficientStock
        ))
    );
    assert_eq!(repo.obtener_cantidad("sku-1"), 3);
}

#[test]
fn clave_compartida_guarda_el_secreto() {
    let clave = ClaveJwtCompartida::nueva("secreto".to_string());
    assert_eq!(clave.texto(), "secreto");
    let copia = clave.clone();
    assert_eq!(copia.texto(), "secreto");
}

#[test]
fn estado_agrupa_repositorio_y_clave() {
    let mut estado = inventory_service::EstadoAplicacion {
        repositorio_inventario: RepositorioInventario::nuevo(),
        clave_jwt: ClaveJwtCompartida::nueva("secreto".to_string()),
    };
    let token = token_hs256(&reclamos("usuario-9", AHORA + 60), "secreto");
    let encabezado = format!("Bearer {token}");
    let clave = estado.clave_jwt.texto().to_string();
    let r = aumentar_stock_producto(
        &mut estado.repositorio_inventario,
        Some(&encabezado),
        &clave,
        AHORA,
        "sku-9",
        PeticionCambioStock { cantidad: 4 },
    )
    .unwrap();
    assert_eq!(r.cantidad, 4);
    assert_eq!(estado.repositorio_inventario.obtener_cantidad("sku-9"), 4);
}
