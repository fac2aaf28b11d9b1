//! The token verifier: a bearer token is three base64url parts separated by
//! dots; the header must name the one configured algorithm, the signature
//! must match the shared secret, and the expiry claim must lie strictly in
//! the future. The token grammar and the expiry rule are verified here; the
//! HMAC check, the base64url codec and the JSON reader are outside calls
//! behind trusted contracts.

use vstd::prelude::*;
use vstd::string::StrSliceExecFns;
use vstd::string::StringSliceAdditionalSpecFns;
use std::sync::Arc;
use base64::Engine;
use base64::engine::general_purpose::URL_SAFE_NO_PAD;
use crate::AuthError;
use crate::texto::{buscar_ultimo, igual_str, pos_ultimo};

verus! {

/// The claims a token carries: subject, optional mail and role, and the
/// expiry as unix time.
#[derive(Debug, Clone, PartialEq, Eq)]
pub struct DatosToken {
    pub sub: String,
    pub correo: Option<String>,
    pub rol: Option<String>,
    pub exp: u64,
}

/// The shared signing secret, read once at startup and handed to every
/// handler.
#[derive(Clone)]
pub struct ClaveJwtCompartida {
    pub clave: Arc<String>,
}

impl ClaveJwtCompartida {
    /// Wraps the configured secret.
    pub fn nueva(valor: String) -> (r: Self)
        ensures
            r.clave@ == valor@,
    {
        ClaveJwtCompartida { clave: Arc::new(valor) }
    }

    /// The secret as text.
    pub fn texto(&self) -> (r: &str)
        ensures
            r@ == self.clave@,
    {
        self.clave.as_str()
    }
}

/// The principal a verified token denotes; rebuilt per request, never stored.
#[derive(Debug, Clone)]
pub struct UsuarioAutenticado {
    pub id_usuario: String,
    pub correo: Option<String>,
    pub rol: Option<String>,
}

impl UsuarioAutenticado {
    /// The principal that a set of verified claims denotes.
    pub fn desde_datos(datos: DatosToken) -> (r: Self)
        ensures
            r.id_usuario@ == datos.sub@,
            r.correo == datos.correo,
            r.rol == datos.rol,
    {
        UsuarioAutenticado { id_usuario: datos.sub, correo: datos.correo, rol: datos.rol }
    }
}

#[verifier::external_type_specification]
#[verifier::external_body]
pub struct ValorJsonExterno(serde_json::Value);

/// Whether `firma` is the base64url HS256 signature of `mensaje` under the
/// secret `clave`; a function of the three arguments alone.
pub uninterp spec fn firma_hs256_valida(clave: Seq<char>, mensaje: Seq<char>, firma: Seq<char>) -> bool;

/// What the base64url alphabet without padding decodes `s` to, or `None`
/// when `s` is not valid base64url.
pub uninterp spec fn b64url_bytes(s: Seq<char>) -> Option<Seq<u8>>;

/// Whether the bytes parse as one JSON value.
pub uninterp spec fn json_valido(b: Seq<u8>) -> bool;

/// The string-valued fields of a parsed JSON object.
pub uninterp spec fn json_textos(v: serde_json::Value) -> Map<Seq<char>, Seq<char>>;

/// The fields of a parsed JSON object that hold an unsigned 64-bit integer.
pub uninterp spec fn json_numeros(v: serde_json::Value) -> Map<Seq<char>, u64>;

/// The string-valued fields of the JSON object the bytes parse to: what
/// `json_textos` reads off the value that `json_analizar` returns for them.
pub uninterp spec fn json_textos_de(b: Seq<u8>) -> Map<Seq<char>, Seq<char>>;

/// The u64-valued fields of the JSON object the bytes parse to: what
/// `json_numeros` reads off the value that `json_analizar` returns for them.
pub uninterp spec fn json_numeros_de(b: Seq<u8>) -> Map<Seq<char>, u64>;

/// Relies on jsonwebtoken::crypto::verify, pinned to the HS256 algorithm:
/// whether `firma` is the base64url HS256 signature of `mensaje` under
/// `clave`. An undecodable signature verifies as false. The result depends
/// on the arguments alone: this crate enables only jsonwebtoken's
/// rust_crypto backend and installs no other crypto provider, so the
/// HMAC-SHA256 comparison behind the call is fixed.
#[verifier::external_body]
fn hs256_verificar(firma: &str, mensaje: &str, clave: &str) -> (r: bool)
    ensures
        r == firma_hs256_valida(clave@, mensaje@, firma@),
{
    let llave = jsonwebtoken::DecodingKey::from_secret(clave.as_bytes());
    jsonwebtoken::crypto::verify(firma, mensaje.as_bytes(), &llave, jsonwebtoken::Algorithm::HS256)
        .unwrap_or(false)
}

/// Relies on base64's URL_SAFE_NO_PAD engine, the alphabet of the token
/// parts: decodes, or reports that the text is not base64url. The result
/// depends on the input alone.
#[verifier::external_body]
fn b64url_decodificar(s: &str) -> (r: Option<Vec<u8>>)
    ensures
        match r {
            Some(b) => b64url_bytes(s@) == Some(b@),
            None => b64url_bytes(s@) is None,
        },
{
    URL_SAFE_NO_PAD.decode(s).ok()
}

/// Relies on serde_json::from_slice: whether the bytes parse as one JSON
/// value, and the parsed value when they do. The result depends on the bytes
/// alone, so the fields of the parsed value are the fields the bytes carry.
#[verifier::external_body]
fn json_analizar(b: &[u8]) -> (r: Option<serde_json::Value>)
    ensures
        r is Some <==> json_valido(b@),
        r matches Some(v) ==> json_textos(v) == json_textos_de(b@) && json_numeros(v)
            == json_numeros_de(b@),
{
    serde_json::from_slice(b).ok()
}

/// Relies on serde_json::Value::get and Value::as_str: the value of a
/// string-valued field, read through `json_textos`.
#[verifier::external_body]
fn json_campo_texto(v: &serde_json::Value, campo: &str) -> (r: Option<String>)
    ensures
        match r {
            Some(s) => json_textos(*v).contains_key(campo@) && json_textos(*v)[campo@] == s@,
            None => !json_textos(*v).contains_key(campo@),
        },
{
    v.get(campo).and_then(|x| x.as_str()).map(|s| s.to_owned())
}

/// Relies on serde_json::Value::get and Value::as_u64: the value of a field
/// holding an unsigned 64-bit integer, read through `json_numeros`.
#[verifier::external_body]
fn json_campo_u64(v: &serde_json::Value, campo: &str) -> (r: Option<u64>)
    ensures
        match r {
            Some(n) => json_numeros(*v).contains_key(campo@) && json_numeros(*v)[campo@] == n,
            None => !json_numeros(*v).contains_key(campo@),
        },
{
    v.get(campo).and_then(|x| x.as_u64())
}

/// The message part of a token: what stands before the last dot.
pub open spec fn mensaje_de(t: Seq<char>) -> Seq<char> {
    t.subrange(0, pos_ultimo(t, '.'))
}

/// The signature part of a token: what follows the last dot.
pub open spec fn firma_de(t: Seq<char>) -> Seq<char> {
    t.subrange(pos_ultimo(t, '.') + 1, t.len() as int)
}

/// The payload part of a token: what the two dots of the message enclose.
pub open spec fn carga_de(t: Seq<char>) -> Seq<char> {
    mensaje_de(t).subrange(pos_ultimo(mensaje_de(t), '.') + 1, mensaje_de(t).len() as int)
}

/// Whether the token has the dotted header.payload.signature shape.
pub open spec fn forma_jwt(t: Seq<char>) -> bool {
    pos_ultimo(t, '.') >= 0 && pos_ultimo(mensaje_de(t), '.') >= 0
}

/// The header part of a token: what stands before the first of its two dots.
pub open spec fn encabezado_de(t: Seq<char>) -> Seq<char> {
    mensaje_de(t).subrange(0, pos_ultimo(mensaje_de(t), '.'))
}

/// Whether the header segment decodes to a JSON object whose `alg` field
/// names HS256, the one configured algorithm.
pub open spec fn encabezado_hs256(t: Seq<char>) -> bool {
    match b64url_bytes(encabezado_de(t)) {
        Some(hb) => json_valido(hb) && json_textos_de(hb).contains_key("alg"@) && json_textos_de(
            hb,
        )["alg"@] == "HS256"@,
        None => false,
    }
}

/// Whether the payload segment decodes to a JSON object carrying the two
/// required claims: a string subject and a u64 expiry.
pub open spec fn carga_con_reclamos(t: Seq<char>) -> bool {
    match b64url_bytes(carga_de(t)) {
        Some(pb) => json_valido(pb) && json_textos_de(pb).contains_key("sub"@)
            && json_numeros_de(pb).contains_key("exp"@),
        None => false,
    }
}

/// The expiry the payload carries; meaningful only under `carga_con_reclamos`.
pub open spec fn plazo_de(t: Seq<char>) -> u64 {
    match b64url_bytes(carga_de(t)) {
        Some(pb) => json_numeros_de(pb)["exp"@],
        None => 0u64,
    }
}

/// Everything token acceptance demands except the expiry comparison: the
/// dotted shape, an HS256 header, a signature valid under the secret, and a
/// payload carrying subject and expiry.
pub open spec fn token_bien_formado(clave: Seq<char>, t: Seq<char>) -> bool {
    &&& forma_jwt(t)
    &&& encabezado_hs256(t)
    &&& firma_hs256_valida(clave, mensaje_de(t), firma_de(t))
    &&& carga_con_reclamos(t)
}

/// When a token is accepted: well formed under the secret, and its expiry
/// lies strictly after `ahora`.
pub open spec fn token_aceptado(clave: Seq<char>, t: Seq<char>, ahora: u64) -> bool {
    token_bien_formado(clave, t) && plazo_de(t) > ahora
}

/// The claims returned for an accepted token are exactly the fields of its
/// payload: required subject and expiry, optional mail and role.
pub open spec fn reclamos_de(t: Seq<char>, d: DatosToken) -> bool {
    match b64url_bytes(carga_de(t)) {
        Some(pb) => {
            &&& d.sub@ == json_textos_de(pb)["sub"@]
            &&& d.exp == json_numeros_de(pb)["exp"@]
            &&& (match d.correo {
                Some(c) => json_textos_de(pb).contains_key("correo"@) && c@ == json_textos_de(
                    pb,
                )["correo"@],
                None => !json_textos_de(pb).contains_key("correo"@),
            })
            &&& (match d.rol {
                Some(s) => json_textos_de(pb).contains_key("rol"@) && s@ == json_textos_de(
                    pb,
                )["rol"@],
                None => !json_textos_de(pb).contains_key("rol"@),
            })
        },
        None => false,
    }
}

/// The principal an accepted token's payload denotes: its subject as the
/// user id, and its optional mail and role.
pub open spec fn principal_de(t: Seq<char>, u: UsuarioAutenticado) -> bool {
    match b64url_bytes(carga_de(t)) {
        Some(pb) => {
            &&& u.id_usuario@ == json_textos_de(pb)["sub"@]
            &&& (match u.correo {
                Some(c) => json_textos_de(pb).contains_key("correo"@) && c@ == json_textos_de(
                    pb,
                )["correo"@],
                None => !json_textos_de(pb).contains_key("correo"@),
            })
            &&& (match u.rol {
                Some(s) => json_textos_de(pb).contains_key("rol"@) && s@ == json_textos_de(
                    pb,
                )["rol"@],
                None => !json_textos_de(pb).contains_key("rol"@),
            })
        },
        None => false,
    }
}

/// Reads the claims out of a decoded payload object and applies the expiry
/// rule: subject and expiry are required, mail and role optional, and the
/// claims are accepted only strictly before their expiry.
pub fn datos_de_valor(v: &serde_json::Value, ahora: u64) -> (r: Result<DatosToken, AuthError>)
    ensures
        match r {
            Ok(d) => {
                &&& json_textos(*v).contains_key("sub"@)
                &&& d.sub@ == json_textos(*v)["sub"@]
                &&& json_numeros(*v).contains_key("exp"@)
                &&& d.exp == json_numeros(*v)["exp"@]
                &&& d.exp > ahora
                &&& match d.correo {
                    Some(c) => json_textos(*v).contains_key("correo"@) && c@ == json_textos(
                        *v,
                    )["correo"@],
                    None => !json_textos(*v).contains_key("correo"@),
                }
                &&& match d.rol {
                    Some(s) => json_textos(*v).contains_key("rol"@) && s@ == json_textos(
                        *v,
                    )["rol"@],
                    None => !json_textos(*v).contains_key("rol"@),
                }
            },
            Err(AuthError::Malformed) => !json_textos(*v).contains_key("sub"@) || !json_numeros(
                *v,
            ).contains_key("exp"@),
            Err(AuthError::Expired) => json_textos(*v).contains_key("sub"@) && json_numeros(
                *v,
            ).contains_key("exp"@) && json_numeros(*v)["exp"@] <= ahora,
        },
{
    let sub = match json_campo_texto(v, "sub") {
        Some(s) => s,
        None => {
            return Err(AuthError::Malformed);
        },
    };
    let exp = match json_campo_u64(v, "exp") {
        Some(n) => n,
        None => {
            return Err(AuthError::Malformed);
        },
    };
    if exp <= ahora {
        return Err(AuthError::Expired);
    }
    let correo = json_campo_texto(v, "correo");
    let rol = json_campo_texto(v, "rol");
    Ok(DatosToken { sub, correo, rol, exp })
}

/// Verifies a bearer token against the shared secret at time `ahora`:
/// splits it as header.payload.signature, demands that the header names
/// HS256 and no other algorithm, checks the HS256 signature over the
/// message, reads the claims and applies the expiry rule.
pub fn verificar_token(token: &str, clave: &str, ahora: u64) -> (r: Result<DatosToken, AuthError>)
    ensures
        match r {
            Ok(d) => token_aceptado(clave@, token@, ahora) && reclamos_de(token@, d),
            Err(AuthError::Expired) => token_bien_formado(clave@, token@) && plazo_de(token@)
                <= ahora,
            Err(AuthError::Malformed) => !token_bien_formado(clave@, token@),
        },
{
    let p1 = match buscar_ultimo(token, '.') {
        Some(i) => i,
        None => {
            return Err(AuthError::Malformed);
        },
    };
    let n = token.unicode_len();
    let mensaje = token.substring_char(0, p1);
    let firma = token.substring_char(p1 + 1, n);
    let p2 = match buscar_ultimo(mensaje, '.') {
        Some(i) => i,
        None => {
            return Err(AuthError::Malformed);
        },
    };
    let m = mensaje.unicode_len();
    let encabezado_b64 = mensaje.substring_char(0, p2);
    let carga_b64 = mensaje.substring_char(p2 + 1, m);
    let encabezado_bytes = match b64url_decodificar(encabezado_b64) {
        Some(b) => b,
        None => {
            return Err(AuthError::Malformed);
        },
    };
    let encabezado_json = match json_analizar(encabezado_bytes.as_slice()) {
        Some(v) => v,
        None => {
            return Err(AuthError::Malformed);
        },
    };
    let alg = match json_campo_texto(&encabezado_json, "alg") {
        Some(s) => s,
        None => {
            return Err(AuthError::Malformed);
        },
    };
    if !igual_str(alg.as_str(), "HS256") {
        return Err(AuthError::Malformed);
    }
    if !hs256_verificar(firma, mensaje, clave) {
        return Err(AuthError::Malformed);
    }
    let carga_bytes = match b64url_decodificar(carga_b64) {
        Some(b) => b,
        None => {
            return Err(AuthError::Malformed);
        },
    };
    let carga_json = match json_analizar(carga_bytes.as_slice()) {
        Some(v) => v,
        None => {
            return Err(AuthError::Malformed);
        },
    };
    datos_de_valor(&carga_json, ahora)
}

} // verus!
