//! The stock ledger: it owns one non-negative quantity per product id and
//! mutates it only through atomic increase / decrease operations. Each public
//! operation holds the ledger exclusively for its whole read-modify-write, so
//! two operations on the same product can never interleave; concurrent
//! callers are serialized in some order, and the transition predicates below
//! describe every such serialization.

use vstd::prelude::*;
use vstd::pervasive::VecAdditionalExecFns;
use crate::LedgerError;
use crate::texto::igual_str;

verus! {

/// One row of the ledger: a product id and its current quantity.
#[derive(Debug, Clone)]
pub struct RegistroInventario {
    pub id_producto: String,
    pub cantidad: i64,
}

/// The ledger itself. Rows are keyed by product id; a product without a row
/// has quantity 0.
pub struct RepositorioInventario {
    registros: Vec<RegistroInventario>,
}

impl RepositorioInventario {
    /// Well-formedness: product ids are pairwise distinct and every stored
    /// quantity is non-negative.
    pub closed spec fn wf(self) -> bool {
        &&& forall|i: int, j: int|
            0 <= i < j < self.registros@.len() ==> self.registros@[i].id_producto@
                != self.registros@[j].id_producto@
        &&& forall|i: int| 0 <= i < self.registros@.len() ==> self.registros@[i].cantidad >= 0
    }

    /// Whether a row for `p` exists.
    pub closed spec fn contiene(self, p: Seq<char>) -> bool {
        exists|i: int|
            0 <= i < self.registros@.len() && self.registros@[i].id_producto@ == p
    }

    /// The abstract state of the ledger: the quantity of each product, with 0
    /// for a product that has no row.
    pub closed spec fn cantidad_de(self, p: Seq<char>) -> int {
        if self.contiene(p) {
            self.registros@[choose|i: int|
                0 <= i < self.registros@.len() && self.registros@[i].id_producto@ == p].cantidad
                as int
        } else {
            0
        }
    }

    proof fn lema_en_indice(self, p: Seq<char>, i: int)
        requires
            self.wf(),
            0 <= i < self.registros@.len(),
            self.registros@[i].id_producto@ == p,
        ensures
            self.contiene(p),
            self.cantidad_de(p) == self.registros@[i].cantidad,
    {
        assert(self.contiene(p));
        let j = choose|j: int|
            0 <= j < self.registros@.len() && self.registros@[j].id_producto@ == p;
        if i < j {
            assert(self.registros@[i].id_producto@ != self.registros@[j].id_producto@);
        } else if j < i {
            assert(self.registros@[j].id_producto@ != self.registros@[i].id_producto@);
        }
    }

    /// Every quantity a well-formed ledger reports is non-negative.
    pub proof fn lema_cantidad_no_negativa(self, p: Seq<char>)
        requires
            self.wf(),
        ensures
            self.cantidad_de(p) >= 0,
    {
        if self.contiene(p) {
            let i = choose|i: int|
                0 <= i < self.registros@.len() && self.registros@[i].id_producto@ == p;
            assert(self.registros@[i].cantidad >= 0);
        }
    }

    fn buscar(&self, id_producto: &str) -> (r: Option<usize>)
        ensures
            match r {
                Some(i) => i < self.registros@.len() && self.registros@[i as int].id_producto@
                    == id_producto@,
                None => !self.contiene(id_producto@),
            },
    {
        let n = self.registros.len();
        let mut i: usize = 0;
        while i < n
            invariant
                n == self.registros@.len(),
                i <= n,
                forall|j: int| 0 <= j < i ==> self.registros@[j].id_producto@ != id_producto@,
            decreases n - i,
        {
            if igual_str(self.registros[i].id_producto.as_str(), id_producto) {
                return Some(i);
            }
            i += 1;
        }
        None
    }

    /// An empty ledger: every product has quantity 0.
    pub fn nuevo() -> (r: Self)
        ensures
            r.wf(),
            forall|p: Seq<char>| r.cantidad_de(p) == 0,
    {
        let r = RepositorioInventario { registros: Vec::new() };
        proof {
            assert forall|p: Seq<char>| r.cantidad_de(p) == 0 by {
                assert(!r.contiene(p));
            }
        }
        r
    }

    /// Reads the quantity of a product; a product never written has 0.
    pub fn obtener_cantidad(&self, id_producto: &str) -> (cantidad: i64)
        requires
            self.wf(),
        ensures
            cantidad == self.cantidad_de(id_producto@),
            cantidad >= 0,
    {
        match self.buscar(id_producto) {
            Some(i) => {
                proof {
                    self.lema_en_indice(id_producto@, i as int);
                }
                self.registros[i].cantidad
            },
            None => 0,
        }
    }

    /// Upserts the quantity of one product and returns it; every other
    /// product keeps its quantity.
    pub fn establecer_cantidad(&mut self, id_producto: &str, nueva_cantidad: i64) -> (r: i64)
        requires
            old(self).wf(),
            nueva_cantidad >= 0,
        ensures
            final(self).wf(),
            r == nueva_cantidad,
            final(self).cantidad_de(id_producto@) == nueva_cantidad,
            forall|q: Seq<char>|
                q != id_producto@ ==> final(self).cantidad_de(q) == old(self).cantidad_de(q),
    {
        let ghost viejo = *self;
        match self.buscar(id_producto) {
            Some(i) => {
                let id = self.registros[i].id_producto.clone();
                self.registros.set(
                    i,
                    RegistroInventario { id_producto: id, cantidad: nueva_cantidad },
                );
                proof {
                    assert forall|k: int|
                        0 <= k < self.registros@.len() implies self.registros@[k].id_producto@
                        == viejo.registros@[k].id_producto@ by {}
                    assert(self.wf());
                    self.lema_en_indice(id_producto@, i as int);
                    assert forall|q: Seq<char>| q != id_producto@ implies self.cantidad_de(q)
                        == viejo.cantidad_de(q) by {
                        self.lema_otro_sin_cambio(viejo, id_producto@, q, i as int);
                    }
                }
            },
            None => {
                let id = id_producto.to_owned();
                self.registros.push(RegistroInventario { id_producto: id, cantidad: nueva_cantidad });
                proof {
                    let n = viejo.registros@.len() as int;
                    assert(self.registros@.len() == n + 1);
                    assert forall|k: int| 0 <= k < n implies self.registros@[k]
                        == viejo.registros@[k] by {}
                    assert(self.registros@[n].id_producto@ == id_producto@);
                    assert(self.wf());
                    self.lema_en_indice(id_producto@, n);
                    assert forall|q: Seq<char>| q != id_producto@ implies self.cantidad_de(q)
                        == viejo.cantidad_de(q) by {
                        if viejo.contiene(q) {
                            let k = choose|k: int|
                                0 <= k < viejo.registros@.len() && viejo.registros@[k].id_producto@
                                    == q;
                            viejo.lema_en_indice(q, k);
                            self.lema_en_indice(q, k);
                        } else {
                            if self.contiene(q) {
                                let k = choose|k: int|
                                    0 <= k < self.registros@.len()
                                        && self.registros@[k].id_producto@ == q;
                                assert(k == n);
                            }
                            assert(!self.contiene(q));
                        }
                    }
                }
            },
        }
        nueva_cantidad
    }

    proof fn lema_otro_sin_cambio(
        self,
        viejo: RepositorioInventario,
        p: Seq<char>,
        q: Seq<char>,
        i: int,
    )
        requires
            self.wf(),
            viejo.wf(),
            q != p,
            self.registros@.len() == viejo.registros@.len(),
            0 <= i < self.registros@.len(),
            viejo.registros@[i].id_producto@ == p,
            forall|k: int|
                0 <= k < self.registros@.len() ==> self.registros@[k].id_producto@
                    == viejo.registros@[k].id_producto@,
            forall|k: int|
                0 <= k < self.registros@.len() && k != i ==> self.registros@[k]
                    == viejo.registros@[k],
        ensures
            self.cantidad_de(q) == viejo.cantidad_de(q),
    {
        if viejo.contiene(q) {
            let k = choose|k: int|
                0 <= k < viejo.registros@.len() && viejo.registros@[k].id_producto@ == q;
            assert(k != i);
            viejo.lema_en_indice(q, k);
            self.lema_en_indice(q, k);
        } else {
            if self.contiene(q) {
                let k = choose|k: int|
                    0 <= k < self.registros@.len() && self.registros@[k].id_producto@ == q;
                assert(viejo.registros@[k].id_producto@ == q);
            }
            assert(!self.contiene(q));
        }
    }

    /// Atomically adds `aumento` to the quantity of one product, creating the
    /// row at `aumento` if absent, and returns the new quantity.
    pub fn aumentar_stock(&mut self, id_producto: &str, aumento: i64) -> (r: i64)
        requires
            old(self).wf(),
            aumento > 0,
            old(self).cantidad_de(id_producto@) + aumento <= i64::MAX,
        ensures
            final(self).wf(),
            transicion_aumentar(*old(self), *final(self), id_producto@, aumento as int, r as int),
    {
        proof {
            self.lema_cantidad_no_negativa(id_producto@);
        }
        let actual = self.obtener_cantidad(id_producto);
        let nueva = actual + aumento;
        self.establecer_cantidad(id_producto, nueva)
    }

    /// Atomically subtracts `disminucion` from the quantity of one product
    /// and returns the new quantity; when the result would be negative the
    /// ledger is left untouched and `InsufficientStock` is signalled.
    pub fn disminuir_stock(&mut self, id_producto: &str, disminucion: i64) -> (r: Result<
        i64,
        LedgerError,
    >)
        requires
            old(self).wf(),
            disminucion > 0,
        ensures
            final(self).wf(),
            transicion_disminuir(*old(self), *final(self), id_producto@, disminucion as int, r),
    {
        let actual = self.obtener_cantidad(id_producto);
        if disminucion > actual {
            return Err(LedgerError::InsufficientStock);
        }
        let nueva = actual - disminucion;
        let n = self.establecer_cantidad(id_producto, nueva);
        Ok(n)
    }
}

/// What one successful increase does to the abstract ledger state.
pub open spec fn transicion_aumentar(
    antes: RepositorioInventario,
    despues: RepositorioInventario,
    p: Seq<char>,
    monto: int,
    r: int,
) -> bool {
    &&& r == antes.cantidad_de(p) + monto
    &&& despues.cantidad_de(p) == antes.cantidad_de(p) + monto
    &&& forall|q: Seq<char>| q != p ==> despues.cantidad_de(q) == antes.cantidad_de(q)
}

/// What one decrease does to the abstract ledger state: it either succeeds
/// exactly when the stock suffices, or signals `InsufficientStock` and leaves
/// the ledger untouched.
pub open spec fn transicion_disminuir(
    antes: RepositorioInventario,
    despues: RepositorioInventario,
    p: Seq<char>,
    monto: int,
    r: Result<i64, LedgerError>,
) -> bool {
    if monto <= antes.cantidad_de(p) {
        &&& r matches Ok(n) && n == antes.cantidad_de(p) - monto
        &&& despues.cantidad_de(p) == antes.cantidad_de(p) - monto
        &&& forall|q: Seq<char>| q != p ==> despues.cantidad_de(q) == antes.cantidad_de(q)
    } else {
        &&& r == Err::<i64, LedgerError>(LedgerError::InsufficientStock)
        &&& despues == antes
    }
}

/// One attempted ledger mutation, as history records it.
pub enum Intento {
    Aumento { producto: Seq<char>, monto: int },
    Disminucion { producto: Seq<char>, monto: int },
}

/// The product an attempt targets.
pub open spec fn producto_de(i: Intento) -> Seq<char> {
    match i {
        Intento::Aumento { producto, .. } => producto,
        Intento::Disminucion { producto, .. } => producto,
    }
}

/// The quantity of `p` after one attempt, starting from quantity `c`:
/// an increase adds its amount, a decrease subtracts it exactly when the
/// stock suffices, and an attempt on another product changes nothing.
pub open spec fn paso(c: int, p: Seq<char>, i: Intento) -> int {
    match i {
        Intento::Aumento { producto, monto } => if producto == p {
            c + monto
        } else {
            c
        },
        Intento::Disminucion { producto, monto } => if producto == p && monto <= c {
            c - monto
        } else {
            c
        },
    }
}

/// The quantity of `p` after a whole history of attempts.
pub open spec fn cantidad_tras(c: int, p: Seq<char>, intentos: Seq<Intento>) -> int
    decreases intentos.len(),
{
    if intentos.len() == 0 {
        c
    } else {
        cantidad_tras(paso(c, p, intentos[0]), p, intentos.drop_first())
    }
}

/// One attempt carried out by the ledger: a positive amount, and a pair of
/// states related by the matching transition.
pub open spec fn intento_valido(
    antes: RepositorioInventario,
    despues: RepositorioInventario,
    i: Intento,
) -> bool {
    match i {
        Intento::Aumento { producto, monto } => {
            &&& monto > 0
            &&& antes.cantidad_de(producto) + monto <= i64::MAX
            &&& exists|r: int| transicion_aumentar(antes, despues, producto, monto, r)
        },
        Intento::Disminucion { producto, monto } => {
            &&& monto > 0
            &&& exists|r: Result<i64, LedgerError>|
                transicion_disminuir(antes, despues, producto, monto, r)
        },
    }
}

/// Cumulative-sum law: along any chain of atomic ledger transitions, the
/// quantity of a product equals its starting quantity plus all of its
/// successful increases minus all of its successful decreases, as
/// `cantidad_tras` folds them up.
pub proof fn ley_acumulacion(
    estados: Seq<RepositorioInventario>,
    intentos: Seq<Intento>,
    p: Seq<char>,
)
    requires
        estados.len() == intentos.len() + 1,
        forall|i: int|
            0 <= i < intentos.len() ==> intento_valido(estados[i], estados[i + 1], intentos[i]),
    ensures
        estados.last().cantidad_de(p) == cantidad_tras(estados.first().cantidad_de(p), p, intentos),
    decreases intentos.len(),
{
    if intentos.len() == 0 {
    } else {
        assert(intento_valido(estados[0], estados[1], intentos[0]));
        lema_paso(estados[0], estados[1], intentos[0], p);
        let estados2 = estados.drop_first();
        let intentos2 = intentos.drop_first();
        assert forall|i: int|
            0 <= i < intentos2.len() implies intento_valido(
            estados2[i],
            estados2[i + 1],
            intentos2[i],
        ) by {
            assert(intento_valido(estados[i + 1], estados[i + 2], intentos[i + 1]));
        }
        ley_acumulacion(estados2, intentos2, p);
        assert(estados2.last() == estados.last());
        assert(estados2.first() == estados[1]);
    }
}

proof fn lema_paso(
    antes: RepositorioInventario,
    despues: RepositorioInventario,
    i: Intento,
    p: Seq<char>,
)
    requires
        intento_valido(antes, despues, i),
    ensures
        despues.cantidad_de(p) == paso(antes.cantidad_de(p), p, i),
{
    match i {
        Intento::Aumento { producto, monto } => {
            let r = choose|r: int| transicion_aumentar(antes, despues, producto, monto, r);
            assert(transicion_aumentar(antes, despues, producto, monto, r));
        },
        Intento::Disminucion { producto, monto } => {
            let r = choose|r: Result<i64, LedgerError>|
                transicion_disminuir(antes, despues, producto, monto, r);
            assert(transicion_disminuir(antes, despues, producto, monto, r));
        },
    }
}

proof fn lema_cantidad_tras_ajeno(c: int, p: Seq<char>, intentos: Seq<Intento>)
    requires
        forall|i: int| 0 <= i < intentos.len() ==> producto_de(intentos[i]) != p,
    ensures
        cantidad_tras(c, p, intentos) == c,
    decreases intentos.len(),
{
    if intentos.len() > 0 {
        assert(producto_de(intentos[0]) != p);
        lema_cantidad_tras_ajeno(c, p, intentos.drop_first());
        assert forall|i: int|
            0 <= i < intentos.drop_first().len() implies producto_de(intentos.drop_first()[i])
            != p by {
            assert(producto_de(intentos[i + 1]) != p);
        }
        lema_cantidad_tras_ajeno(paso(c, p, intentos[0]), p, intentos.drop_first());
    }
}

/// A product never written keeps quantity 0: along any chain of transitions
/// in which no attempt targets `p`, the quantity of `p` stays where it
/// started.
pub proof fn ley_producto_no_escrito(
    estados: Seq<RepositorioInventario>,
    intentos: Seq<Intento>,
    p: Seq<char>,
)
    requires
        estados.len() == intentos.len() + 1,
        forall|i: int|
            0 <= i < intentos.len() ==> intento_valido(estados[i], estados[i + 1], intentos[i]),
        forall|i: int| 0 <= i < intentos.len() ==> producto_de(intentos[i]) != p,
        estados.first().cantidad_de(p) == 0,
    ensures
        estados.last().cantidad_de(p) == 0,
{
    ley_acumulacion(estados, intentos, p);
    lema_cantidad_tras_ajeno(0, p, intentos);
}

/// Two decreases of 7 against a quantity of 10, in either serialization
/// order: the first to run succeeds and returns 3, the second fails with
/// `InsufficientStock`, and the final quantity is 3 - never negative and
/// never 10 minus 14.
pub proof fn ley_disminucion_concurrente(
    s0: RepositorioInventario,
    s1: RepositorioInventario,
    s2: RepositorioInventario,
    p: Seq<char>,
    r1: Result<i64, LedgerError>,
    r2: Result<i64, LedgerError>,
)
    requires
        s0.cantidad_de(p) == 10,
        transicion_disminuir(s0, s1, p, 7, r1),
        transicion_disminuir(s1, s2, p, 7, r2),
    ensures
        r1 == Ok::<i64, LedgerError>(3i64),
        r2 == Err::<i64, LedgerError>(LedgerError::InsufficientStock),
        s2.cantidad_de(p) == 3,
{
}

} // verus!
