//! The ledger transaction engine. A `Ledger` holds the account rows and the
//! append-only audit trail; `apply_transaction` is the atomic
//! check-limit, update-balance, append-record step, and `extract` the
//! read-only view of the recent history. Because the whole update is one call
//! on `&mut self`, no interleaving of callers can ever see or produce a state
//! between the limit check and the two writes — the in-memory counterpart of
//! the single conditional statement in `query`.

use vstd::prelude::*;
use crate::rows::EXTRATO_DISPLAY;
use crate::rows::linha_do_registro;
use crate::types::Cliente;
use crate::types::ExtratoResponse;
use crate::types::LedgerError;
use crate::types::SaldoExtratoResponse;
use crate::types::Tipo;
use crate::types::Transacao;
use crate::types::TransacaoExtratoResponse;
use crate::types::TransacaoResponse;
use crate::types::descricao_valida;
use crate::types::entrada_valida;
use crate::types::parse_tipo_spec;
use crate::types::valor_valido;
use crate::types::check_descricao;
use crate::types::parse_tipo;
use crate::types::tipo_to_string;

verus! {

/// The service's state: one account per id, ids starting at 1, and each
/// account's transactions in insertion order, oldest first.
pub struct Ledger {
    pub clientes: Vec<Cliente>,
    pub transacoes: Vec<Vec<Transacao>>,
}

/// An account row on its own is sound: a non-negative limit and a balance
/// within the overdraft bound.
pub open spec fn cliente_ok(c: Cliente) -> bool {
    &&& c.limite >= 0
    &&& c.saldo as int >= -(c.limite as int)
}

impl Ledger {
    /// The ids this ledger serves: the closed range from 1 to the number of
    /// configured accounts.
    pub open spec fn id_valido(self, id: int) -> bool {
        1 <= id <= self.clientes@.len()
    }

    /// The account row behind a valid id.
    pub open spec fn cliente_of(self, id: int) -> Cliente {
        self.clientes@[id - 1]
    }

    /// The audit trail of one account, oldest first.
    pub open spec fn txs_of(self, id: int) -> Seq<Transacao> {
        self.transacoes@[id - 1]@
    }

    /// A stored record is sound for the account that owns it: it passed
    /// validation, it carries the account's (immutable) limit, and its balance
    /// snapshot respected the overdraft bound.
    pub open spec fn tx_ok(self, id: int, t: Transacao) -> bool {
        &&& t.cliente_id as int == id
        &&& valor_valido(t.valor)
        &&& parse_tipo_spec(t.tipo@) is Some
        &&& descricao_valida(t.descricao@)
        &&& t.limite_atual == self.cliente_of(id).limite
        &&& t.saldo_atual as int >= -(t.limite_atual as int)
    }

    /// Well-formedness: every account within its overdraft bound, every stored
    /// record sound, and the newest record of each account carrying exactly the
    /// account's current balance — the denormalized snapshot is never stale.
    pub open spec fn wf(self) -> bool {
        &&& self.transacoes@.len() == self.clientes@.len()
        &&& forall|i: int|
            0 <= i < self.clientes@.len() ==> cliente_ok(#[trigger] self.clientes@[i])
        &&& forall|i: int, k: int|
            0 <= i < self.transacoes@.len() && 0 <= k < self.transacoes@[i]@.len() ==> self.tx_ok(
                i + 1,
                #[trigger] self.transacoes@[i]@[k],
            )
        &&& forall|i: int|
            #![trigger self.transacoes@[i]]
            0 <= i < self.transacoes@.len() && self.transacoes@[i]@.len() > 0
                ==> self.transacoes@[i]@.last().saldo_atual == self.clientes@[i].saldo
    }

    /// What the atomic update decides, before any state is touched: the
    /// outcome, and on success the post-update `(saldo, limite)` pair, in
    /// unbounded integers. An unknown id is `NotFound`; a malformed request is
    /// `Invalid`; a credit always applies; a debit applies only where
    /// `saldo - valor >= -limite` would still hold, and is `Rejected`
    /// otherwise.
    pub open spec fn apply_verdict(
        self,
        cliente_id: i32,
        valor: i32,
        tipo: Seq<char>,
        descricao: Seq<char>,
    ) -> Result<(int, int), LedgerError> {
        if !self.id_valido(cliente_id as int) {
            Err(LedgerError::NotFound)
        } else if !entrada_valida(valor, tipo, descricao) {
            Err(LedgerError::Invalid)
        } else {
            let c = self.cliente_of(cliente_id as int);
            if parse_tipo_spec(tipo) == Some(Tipo::Credito) {
                Ok((c.saldo + valor, c.limite as int))
            } else if c.saldo - valor >= -(c.limite as int) {
                Ok((c.saldo - valor, c.limite as int))
            } else {
                Err(LedgerError::Rejected)
            }
        }
    }

    /// Build a ledger over pre-provisioned accounts, each starting with an
    /// empty audit trail.
    pub fn new(clientes: Vec<Cliente>) -> (r: Ledger)
        requires
            forall|i: int| 0 <= i < clientes@.len() ==> cliente_ok(#[trigger] clientes@[i]),
        ensures
            r.wf(),
            r.clientes@ == clientes@,
            forall|id: int| r.id_valido(id) ==> (#[trigger] r.txs_of(id)).len() == 0,
    {
        let n = clientes.len();
        let mut transacoes: Vec<Vec<Transacao>> = Vec::new();
        while transacoes.len() < n
            invariant
                transacoes@.len() <= n,
                forall|i: int| 0 <= i < transacoes@.len() ==> (#[trigger] transacoes@[i])@.len() == 0,
            decreases n - transacoes@.len(),
        {
            transacoes.push(Vec::new());
        }
        Ledger { clientes, transacoes }
    }

    /// The atomic balance update. Validates the request, then — in one
    /// indivisible step — checks the overdraft bound, moves the balance and
    /// appends the one transaction record carrying the post-update snapshot.
    /// Every refusal leaves the ledger exactly as it was. The returned pair is
    /// the one produced by this very update, never a re-read value.
    ///
    /// The caller keeps a credit from overflowing the machine balance; every
    /// other input is handled.
    pub fn apply_transaction(
        &mut self,
        cliente_id: i32,
        valor: i32,
        tipo: &String,
        descricao: String,
        realizada_em: String,
    ) -> (r: Result<TransacaoResponse, LedgerError>)
        requires
            old(self).wf(),
            (old(self).id_valido(cliente_id as int) && entrada_valida(valor, tipo@, descricao@)
                && parse_tipo_spec(tipo@) == Some(Tipo::Credito)) ==> old(self).cliente_of(
                cliente_id as int,
            ).saldo + valor <= i32::MAX,
        ensures
            final(self).wf(),
            match r {
                Ok(resp) => {
                    &&& old(self).apply_verdict(cliente_id, valor, tipo@, descricao@) == Ok::<
                        (int, int),
                        LedgerError,
                    >((resp.saldo as int, resp.limite as int))
                    &&& aplicacao_aceita(
                        *old(self),
                        *final(self),
                        cliente_id,
                        valor,
                        tipo@,
                        descricao,
                        realizada_em,
                        resp.saldo,
                    )
                },
                Err(e) => {
                    &&& old(self).apply_verdict(cliente_id, valor, tipo@, descricao@) == Err::<
                        (int, int),
                        LedgerError,
                    >(e)
                    &&& *final(self) == *old(self)
                },
            },
    {
        if cliente_id < 1 || self.clientes.len() < cliente_id as usize {
            return Err(LedgerError::NotFound);
        }
        let parsed = parse_tipo(tipo);
        if valor <= 0 || parsed.is_none() || !check_descricao(&descricao) {
            return Err(LedgerError::Invalid);
        }
        let kind = parsed.unwrap();
        let idx = (cliente_id - 1) as usize;
        let limite = self.clientes[idx].limite;
        let saldo = self.clientes[idx].saldo;
        let novo_saldo: i32;
        match kind {
            Tipo::Credito => {
                novo_saldo = saldo + valor;
            },
            Tipo::Debito => {
                if (saldo as i64) - (valor as i64) >= -(limite as i64) {
                    novo_saldo = saldo - valor;
                } else {
                    return Err(LedgerError::Rejected);
                }
            },
        }
        self.clientes[idx].saldo = novo_saldo;
        let registro = Transacao {
            cliente_id,
            valor,
            tipo: tipo_to_string(kind),
            descricao,
            realizada_em,
            limite_atual: limite,
            saldo_atual: novo_saldo,
        };
        self.transacoes[idx].push(registro);
        Ok(TransacaoResponse { saldo: novo_saldo, limite })
    }

    /// The extract: the account's current snapshot plus its most recent
    /// transactions, newest first, at most `EXTRATO_DISPLAY` of them. The
    /// snapshot is read off the newest record's denormalized fields; under
    /// well-formedness that record carries exactly the account's current
    /// balance and limit, so the snapshot and the list describe one and the
    /// same instant. A read never changes the ledger.
    pub fn extract(&self, cliente_id: i32, data_extrato: String) -> (r: Result<
        ExtratoResponse,
        LedgerError,
    >)
        requires
            self.wf(),
        ensures
            match r {
                Ok(resp) => {
                    &&& self.id_valido(cliente_id as int)
                    &&& self.txs_of(cliente_id as int).len() > 0
                    &&& resp.saldo.total == self.txs_of(cliente_id as int).last().saldo_atual
                    &&& resp.saldo.limite == self.txs_of(cliente_id as int).last().limite_atual
                    &&& resp.saldo.total == self.cliente_of(cliente_id as int).saldo
                    &&& resp.saldo.limite == self.cliente_of(cliente_id as int).limite
                    &&& resp.saldo.data_extrato == data_extrato
                    &&& resp.ultimas_transacoes@.len() == vstd::math::min(
                        self.txs_of(cliente_id as int).len() as int,
                        EXTRATO_DISPLAY as int,
                    )
                    &&& forall|j: int|
                        0 <= j < resp.ultimas_transacoes@.len() ==> linha_do_registro(
                            #[trigger] resp.ultimas_transacoes@[j],
                            self.txs_of(cliente_id as int)[self.txs_of(cliente_id as int).len() - 1
                                - j],
                        )
                },
                Err(e) => {
                    if !self.id_valido(cliente_id as int) {
                        e == LedgerError::NotFound
                    } else {
                        self.txs_of(cliente_id as int).len() == 0 && e == LedgerError::NoHistory
                    }
                },
            },
    {
        if cliente_id < 1 || self.clientes.len() < cliente_id as usize {
            return Err(LedgerError::NotFound);
        }
        let idx = (cliente_id - 1) as usize;
        let txs = &self.transacoes[idx];
        let n = txs.len();
        if n == 0 {
            return Err(LedgerError::NoHistory);
        }
        let mostradas: usize = if n < EXTRATO_DISPLAY {
            n
        } else {
            EXTRATO_DISPLAY
        };
        let mut ultimas: Vec<TransacaoExtratoResponse> = Vec::new();
        let mut j: usize = 0;
        while j < mostradas
            invariant
                j <= mostradas,
                mostradas <= n,
                n == txs@.len(),
                ultimas@.len() == j,
                forall|k: int|
                    0 <= k < j ==> linha_do_registro(#[trigger] ultimas@[k], txs@[n - 1 - k]),
            decreases mostradas - j,
        {
            let t = &txs[n - 1 - j];
            ultimas.push(
                TransacaoExtratoResponse {
                    valor: t.valor,
                    tipo: t.tipo.clone(),
                    descricao: t.descricao.clone(),
                    realizada_em: t.realizada_em.clone(),
                },
            );
            j += 1;
        }
        let newest = &txs[n - 1];
        let saldo = SaldoExtratoResponse {
            total: newest.saldo_atual,
            limite: newest.limite_atual,
            data_extrato,
        };
        Ok(ExtratoResponse { saldo, ultimas_transacoes: ultimas })
    }
}

/// Law: for every account of a well-formed ledger the balance stays within the
/// overdraft bound, `saldo >= -limite`, and every snapshot in the audit trail
/// respected the same bound when it was recorded.
pub proof fn lemma_saldo_dentro_do_limite(l: Ledger, id: int)
    requires
        l.wf(),
        l.id_valido(id),
    ensures
        l.cliente_of(id).saldo as int >= -(l.cliente_of(id).limite as int),
        forall|k: int|
            0 <= k < l.txs_of(id).len() ==> (#[trigger] l.txs_of(id)[k]).saldo_atual as int >= -(
            l.cliente_of(id).limite as int),
{
    assert(cliente_ok(l.clientes@[id - 1]));
    assert forall|k: int| 0 <= k < l.txs_of(id).len() implies (#[trigger] l.txs_of(
        id,
    )[k]).saldo_atual as int >= -(l.cliente_of(id).limite as int) by {
        assert(l.tx_ok(id, l.transacoes@[id - 1]@[k]));
    }
}

/// Law: two debits on one account, each admissible against the same starting
/// balance but with a sum that would breach the overdraft bound, can never
/// both be accepted. Whichever lands first, the ledger it leaves behind
/// rejects the other — so no interleaving accepts a superset that breaks the
/// invariant — and the balance after the accepted one still respects the
/// bound. Swapping the two requests instantiates the same law in the other
/// order.
pub proof fn lemma_debitos_concorrentes(
    pre: Ledger,
    mid: Ledger,
    cliente_id: i32,
    v1: i32,
    v2: i32,
    tipo: Seq<char>,
    descricao1: String,
    realizada_em1: String,
    descricao2: Seq<char>,
    novo1: i32,
)
    requires
        pre.wf(),
        pre.id_valido(cliente_id as int),
        parse_tipo_spec(tipo) == Some(Tipo::Debito),
        entrada_valida(v1, tipo, descricao1@),
        entrada_valida(v2, tipo, descricao2),
        pre.cliente_of(cliente_id as int).saldo - v1 >= -(pre.cliente_of(
            cliente_id as int,
        ).limite as int),
        pre.cliente_of(cliente_id as int).saldo - v2 >= -(pre.cliente_of(
            cliente_id as int,
        ).limite as int),
        pre.cliente_of(cliente_id as int).saldo - v1 - v2 < -(pre.cliente_of(
            cliente_id as int,
        ).limite as int),
        novo1 as int == pre.cliente_of(cliente_id as int).saldo - v1,
        aplicacao_aceita(pre, mid, cliente_id, v1, tipo, descricao1, realizada_em1, novo1),
    ensures
        pre.apply_verdict(cliente_id, v1, tipo, descricao1@) == Ok::<(int, int), LedgerError>(
            (novo1 as int, pre.cliente_of(cliente_id as int).limite as int),
        ),
        mid.apply_verdict(cliente_id, v2, tipo, descricao2) == Err::<(int, int), LedgerError>(
            LedgerError::Rejected,
        ),
        mid.cliente_of(cliente_id as int).saldo as int >= -(mid.cliente_of(
            cliente_id as int,
        ).limite as int),
{
}

/// The new record is exactly the accepted request plus the post-update
/// snapshot.
pub open spec fn registro_de(
    t: Transacao,
    cliente_id: i32,
    valor: i32,
    tipo: Seq<char>,
    descricao: String,
    realizada_em: String,
    limite: i32,
    saldo: i32,
) -> bool {
    &&& t.cliente_id == cliente_id
    &&& t.valor == valor
    &&& t.tipo@ == tipo
    &&& t.descricao == descricao
    &&& t.realizada_em == realizada_em
    &&& t.limite_atual == limite
    &&& t.saldo_atual == saldo
}

/// How an accepted update relates the new ledger to the old one: every other
/// account untouched, this account's name and limit kept and its balance moved
/// to `novo_saldo`, and exactly one record — the accepted request with its
/// snapshot — appended to this account's trail.
pub open spec fn aplicacao_aceita(
    pre: Ledger,
    post: Ledger,
    cliente_id: i32,
    valor: i32,
    tipo: Seq<char>,
    descricao: String,
    realizada_em: String,
    novo_saldo: i32,
) -> bool {
    let id = cliente_id as int;
    &&& pre.id_valido(id)
    &&& post.clientes@.len() == pre.clientes@.len()
    &&& post.transacoes@.len() == pre.transacoes@.len()
    &&& forall|i: int|
        0 <= i < pre.clientes@.len() && i != id - 1 ==> #[trigger] post.clientes@[i]
            == pre.clientes@[i]
    &&& forall|i: int|
        0 <= i < pre.transacoes@.len() && i != id - 1 ==> #[trigger] post.transacoes@[i]
            == pre.transacoes@[i]
    &&& post.cliente_of(id).nome == pre.cliente_of(id).nome
    &&& post.cliente_of(id).limite == pre.cliente_of(id).limite
    &&& post.cliente_of(id).saldo == novo_saldo
    &&& post.txs_of(id).len() == pre.txs_of(id).len() + 1
    &&& forall|k: int|
        0 <= k < pre.txs_of(id).len() ==> #[trigger] post.txs_of(id)[k] == pre.txs_of(id)[k]
    &&& registro_de(
        post.txs_of(id).last(),
        cliente_id,
        valor,
        tipo,
        descricao,
        realizada_em,
        pre.cliente_of(id).limite,
        novo_saldo,
    )
}

} // verus!
