use rinha_ledger::ledger::Ledger;
use rinha_ledger::types::Cliente;
use rinha_ledger::types::LedgerError;

fn um_cliente(limite: i32, saldo: i32) -> Ledger {
    let clientes = vec![Cliente { nome: "ana".to_string(), limite, saldo }];
    Ledger::new(clientes)
}

fn aplica(l: &mut Ledger, valor: i32, tipo: &str, descricao: &str) -> Result<(i32, i32), LedgerError> {
    let r = l.apply_transaction(1, valor, &tipo.to_string(), descricao.to_string(), "2024-01-01 00:00:00".to_string());
    match r {
        Ok(resp) => Ok((resp.saldo, resp.limite)),
        Err(e) => Err(e),
    }
}

#[test]
fn cenario_concreto() {
    // account 1, limit 1000, balance 0
    let mut l = um_cliente(1000, 0);

    // debit 500 -> accepted, balance -500
    assert_eq!(aplica(&mut l, 500, "d", "primeira"), Ok((-500, 1000)));
    assert_eq!(l.clientes[0].saldo, -500);

    // debit 600 -> would reach -1100 < -1000 -> rejected, balance unchanged
    assert_eq!(aplica(&mut l, 600, "d", "segunda"), Err(LedgerError::Rejected));
    assert_eq!(l.clientes[0].saldo, -500);
    assert_eq!(l.transacoes[0].len(), 1);

    // credit 2000 -> balance 1500
    assert_eq!(aplica(&mut l, 2000, "c", "terceira"), Ok((1500, 1000)));
    assert_eq!(l.clientes[0].saldo, 1500);

    // extract: two records, newest first, snapshot from the newest record
    let r = l.extract(1, "2024-01-02 00:00:00".to_string()).ok().unwrap();
    assert_eq!(r.saldo.total, 1500);
    assert_eq!(r.saldo.limite, 1000);
    assert_eq!(r.saldo.data_extrato, "2024-01-02 00:00:00");
    assert_eq!(r.ultimas_transacoes.len(), 2);
    assert_eq!(r.ultimas_transacoes[0].valor, 2000);
    assert_eq!(r.ultimas_transacoes[0].tipo, "c");
    assert_eq!(r.ultimas_transacoes[0].descricao, "terceira");
    assert_eq!(r.ultimas_transacoes[1].valor, 500);
    assert_eq!(r.ultimas_transacoes[1].tipo, "d");
    assert_eq!(r.ultimas_transacoes[1].descricao, "primeira");
}

#[test]
fn limites_de_validacao() {
    let mut l = um_cliente(1000, 0);

    // description of length 0 and 11 rejected, 1 and 10 accepted
    assert_eq!(aplica(&mut l, 1, "d", ""), Err(LedgerError::Invalid));
    assert_eq!(aplica(&mut l, 1, "d", "abcdefghijk"), Err(LedgerError::Invalid));
    assert!(aplica(&mut l, 1, "d", "x").is_ok());
    assert!(aplica(&mut l, 1, "d", "abcdefghij").is_ok());

    // amount 0 and negative rejected, 1 accepted
    assert_eq!(aplica(&mut l, 0, "c", "valor"), Err(LedgerError::Invalid));
    assert_eq!(aplica(&mut l, -5, "c", "valor"), Err(LedgerError::Invalid));
    assert!(aplica(&mut l, 1, "c", "valor").is_ok());

    // kind must be exactly "c" or "d"
    assert_eq!(aplica(&mut l, 1, "x", "tipo"), Err(LedgerError::Invalid));
    assert_eq!(aplica(&mut l, 1, "", "tipo"), Err(LedgerError::Invalid));
    assert_eq!(aplica(&mut l, 1, "cd", "tipo"), Err(LedgerError::Invalid));
}

#[test]
fn conta_desconhecida() {
    // apply/extract on id 999 -> NotFound, nothing written anywhere
    let mut l = um_cliente(1000, 0);
    let r = l.apply_transaction(999, 10, &"c".to_string(), "nada".to_string(), "t".to_string());
    assert_eq!(r.err().unwrap(), LedgerError::NotFound);
    assert_eq!(l.clientes[0].saldo, 0);
    assert_eq!(l.transacoes[0].len(), 0);

    let e = l.extract(999, "t".to_string()).err().unwrap();
    assert_eq!(e, LedgerError::NotFound);

    let r0 = l.apply_transaction(0, 10, &"c".to_string(), "nada".to_string(), "t".to_string());
    assert_eq!(r0.err().unwrap(), LedgerError::NotFound);
}

#[test]
fn recusa_sem_efeito() {
    // after Rejected, Invalid or NotFound the balance and the transaction
    // count are unchanged
    let mut l = um_cliente(100, 50);
    assert!(aplica(&mut l, 20, "d", "ok").is_ok());
    let saldo_antes = l.clientes[0].saldo;
    let n_antes = l.transacoes[0].len();

    assert_eq!(aplica(&mut l, 1000, "d", "grande"), Err(LedgerError::Rejected));
    assert_eq!(aplica(&mut l, 0, "c", "zero"), Err(LedgerError::Invalid));
    assert_eq!(aplica(&mut l, 5, "z", "tipo"), Err(LedgerError::Invalid));
    let r = l.apply_transaction(7, 5, &"c".to_string(), "fora".to_string(), "t".to_string());
    assert_eq!(r.err().unwrap(), LedgerError::NotFound);

    assert_eq!(l.clientes[0].saldo, saldo_antes);
    assert_eq!(l.transacoes[0].len(), n_antes);
}

#[test]
fn debitos_concorrentes_no_maximo_um() {
    // two debits, each valid against the starting balance, whose sum breaches
    // the limit: only the first is accepted, whichever order they land in
    for ordem in [(700, 600), (600, 700)] {
        let mut l = um_cliente(1000, 0);
        let (v1, v2) = ordem;
        assert!(aplica(&mut l, v1, "d", "um").is_ok());
        assert_eq!(aplica(&mut l, v2, "d", "dois"), Err(LedgerError::Rejected));
        assert_eq!(l.clientes[0].saldo, -v1);
        assert!(l.clientes[0].saldo >= -l.clientes[0].limite);
        assert_eq!(l.transacoes[0].len(), 1);
    }
}

#[test]
fn saldo_nunca_abaixo_do_limite() {
    // drive one account through a mix of operations and watch the invariant
    let mut l = um_cliente(300, 0);
    for (valor, tipo) in [(200, "d"), (200, "d"), (150, "c"), (400, "d"), (400, "d"), (1, "c")] {
        let _ = aplica(&mut l, valor, tipo, "mix");
        assert!(l.clientes[0].saldo >= -l.clientes[0].limite);
    }
    assert_eq!(l.clientes[0].saldo, -49);
}

#[test]
fn extrato_sem_historico() {
    let l = um_cliente(1000, 0);
    let e = l.extract(1, "agora".to_string()).err().unwrap();
    assert_eq!(e, LedgerError::NoHistory);
}

#[test]
fn extrato_mostra_no_maximo_dez() {
    // twelve transactions: the extract shows the ten newest, newest first
    let mut l = um_cliente(0, 0);
    for i in 1..=12 {
        assert!(aplica(&mut l, i, "c", "serie").is_ok());
    }
    let r = l.extract(1, "agora".to_string()).ok().unwrap();
    assert_eq!(r.ultimas_transacoes.len(), 10);
    // newest first: amounts 12, 11, ..., 3
    for (j, linha) in r.ultimas_transacoes.iter().enumerate() {
        assert_eq!(linha.valor, 12 - j as i32);
        assert_eq!(linha.tipo, "c");
    }
    // snapshot equals the newest record's denormalized fields
    assert_eq!(r.saldo.total, 78);
    assert_eq!(r.saldo.limite, 0);
    assert_eq!(l.transacoes[0][11].saldo_atual, 78);
}

#[test]
fn registro_carrega_instantaneo() {
    // each record stores the balance and limit as of immediately after it
    let mut l = um_cliente(500, 0);
    assert!(aplica(&mut l, 100, "c", "a").is_ok());
    assert!(aplica(&mut l, 300, "d", "b").is_ok());
    let t0 = &l.transacoes[0][0];
    assert_eq!((t0.saldo_atual, t0.limite_atual, t0.valor), (100, 500, 100));
    assert_eq!(t0.tipo, "c");
    assert_eq!(t0.cliente_id, 1);
    let t1 = &l.transacoes[0][1];
    assert_eq!((t1.saldo_atual, t1.limite_atual, t1.valor), (-200, 500, 300));
    assert_eq!(t1.tipo, "d");
}

#[test]
fn varios_clientes_independentes() {
    // a write on one account never touches another
    let clientes = vec![
        Cliente { nome: "ana".to_string(), limite: 1000, saldo: 0 },
        Cliente { nome: "bia".to_string(), limite: 50, saldo: 10 },
    ];
    let mut l = Ledger::new(clientes);
    let r = l.apply_transaction(2, 30, &"d".to_string(), "so bia".to_string(), "t".to_string());
    assert_eq!(r.ok().unwrap().saldo, -20);
    assert_eq!(l.clientes[0].saldo, 0);
    assert_eq!(l.transacoes[0].len(), 0);
    assert_eq!(l.clientes[1].saldo, -20);
    assert_eq!(l.transacoes[1].len(), 1);
}
