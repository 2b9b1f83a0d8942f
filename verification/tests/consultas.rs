use pecas::handlers::{
    plano_delete_peca, plano_post_peca, plano_put_peca, resposta_health_check, Acao, StatusHttp,
};
use pecas::models::{FiltrosPeca, Peca, PecaJson, ProximaOperacao};
use pecas::repository::{
    comando_atualizar_peca, comando_criar_tabela, comando_deletar_peca, comando_inserir_peca,
    consulta_pecas_filtradas, peca_de_linha, Comando, Parametro,
};

const BASE: &str =
    "SELECT id, codigo_pi, nome, proxima_operacao, data_entrada, lote, data_saida FROM pecas WHERE 1=1";

fn sem_filtros() -> FiltrosPeca {
    FiltrosPeca {
        codigo_pi: None,
        nome: None,
        lote: None,
        proxima_operacao: None,
        data_entrada: None,
        data_saida: None,
    }
}

fn texto(s: &str) -> Parametro {
    Parametro::Texto(s.to_string())
}

fn marcadores(c: &Comando) -> usize {
    c.sql.chars().filter(|ch| *ch == '?').count()
}

fn peca() -> Peca {
    Peca {
        id: 42,
        codigo_pi: "87654321".to_string(),
        nome: "Haste".to_string(),
        proxima_operacao: ProximaOperacao::Trefilar,
        data_entrada: "2024-02-03".to_string(),
        lote: "H1234567890".to_string(),
        data_saida: None,
    }
}

fn corpo() -> PecaJson {
    PecaJson {
        codigo_pi: "12345678".to_string(),
        nome: "Haste".to_string(),
        proxima_operacao: "Curvar".to_string(),
        lote: "H0501001001".to_string(),
        data_entrada: "2024-05-01".to_string(),
        data_saida: Some("2024-05-09".to_string()),
    }
}

#[test]
fn consulta_sem_filtros_lista_tudo_mais_recente_primeiro() {
    let c = consulta_pecas_filtradas(&sem_filtros());
    assert_eq!(c.sql, format!("{} ORDER BY id DESC", BASE));
    assert!(c.parametros.is_empty());
    assert_eq!(marcadores(&c), 0);
}

#[test]
fn consulta_com_todos_os_filtros() {
    let f = FiltrosPeca {
        codigo_pi: Some("123".to_string()),
        nome: Some("Haste".to_string()),
        lote: Some("H05".to_string()),
        proxima_operacao: Some("Rec".to_string()),
        data_entrada: Some("2024".to_string()),
        data_saida: Some("".to_string()),
    };
    let c = consulta_pecas_filtradas(&f);
    assert_eq!(
        c.sql,
        format!(
            "{} AND codigo_pi LIKE ? AND nome LIKE ? AND lote LIKE ? AND proxima_operacao LIKE ? AND data_entrada LIKE ? AND data_saida LIKE ? ORDER BY id DESC",
            BASE
        )
    );
    assert_eq!(
        c.parametros,
        vec![texto("%123%"), texto("%Haste%"), texto("%H05%"), texto("%Rec%"), texto("%2024%"), texto("%%")]
    );
    assert_eq!(marcadores(&c), c.parametros.len());
}

#[test]
fn consulta_com_alguns_filtros_guarda_a_ordem() {
    let mut f = sem_filtros();
    f.data_entrada = Some("05".to_string());
    f.nome = Some("50%".to_string());
    let c = consulta_pecas_filtradas(&f);
    assert_eq!(
        c.sql,
        format!("{} AND nome LIKE ? AND data_entrada LIKE ? ORDER BY id DESC", BASE)
    );
    assert_eq!(c.parametros, vec![texto("%50%%"), texto("%05%")]);
    assert_eq!(marcadores(&c), 2);
}

#[test]
fn inserir_grava_as_colunas_na_ordem() {
    let c = comando_inserir_peca(&peca());
    assert_eq!(
        c.sql,
        "INSERT INTO pecas (codigo_pi, nome, proxima_operacao, lote, data_entrada, data_saida)\n         VALUES (?1, ?2, ?3, ?4, ?5, ?6)"
    );
    assert_eq!(
        c.parametros,
        vec![
            texto("87654321"),
            texto("Haste"),
            texto("Trefilar"),
            texto("H1234567890"),
            texto("2024-02-03"),
            Parametro::Nulo,
        ]
    );
    assert_eq!(marcadores(&c), 6);
}

#[test]
fn atualizar_grava_as_colunas_e_o_id() {
    let mut p = peca();
    p.data_saida = Some("2024-03-01".to_string());
    let c = comando_atualizar_peca(&p);
    assert_eq!(
        c.sql,
        "UPDATE pecas SET\n            codigo_pi        = ?1,\n            nome             = ?2,\n            proxima_operacao = ?3,\n            lote             = ?4,\n            data_entrada     = ?5,\n            data_saida       = ?6\n         WHERE id = ?7"
    );
    assert_eq!(
        c.parametros,
        vec![
            texto("87654321"),
            texto("Haste"),
            texto("Trefilar"),
            texto("H1234567890"),
            texto("2024-02-03"),
            texto("2024-03-01"),
            Parametro::Inteiro(42),
        ]
    );
    assert_eq!(marcadores(&c), 7);
}

#[test]
fn deletar_pelo_id() {
    let c = comando_deletar_peca(-7);
    assert_eq!(c.sql, "DELETE FROM pecas WHERE id = ?1");
    assert_eq!(c.parametros, vec![Parametro::Inteiro(-7)]);
}

#[test]
fn tabela_criada_com_as_colunas_da_peca() {
    let c = comando_criar_tabela();
    assert!(c.sql.starts_with("CREATE TABLE IF NOT EXISTS pecas ("));
    assert!(c.sql.contains("id               INTEGER PRIMARY KEY AUTOINCREMENT,"));
    assert!(c.sql.contains("data_saida       TEXT\n"));
    assert!(c.parametros.is_empty());
}

#[test]
fn linha_lida_vira_peca() {
    let r = peca_de_linha(
        9,
        "11111111".to_string(),
        "Pino".to_string(),
        "Calibrar",
        "2023-12-31".to_string(),
        "H0000000001".to_string(),
        Some("2024-01-02".to_string()),
    );
    assert_eq!(
        r,
        Ok(Peca {
            id: 9,
            codigo_pi: "11111111".to_string(),
            nome: "Pino".to_string(),
            proxima_operacao: ProximaOperacao::Calibrar,
            data_entrada: "2023-12-31".to_string(),
            lote: "H0000000001".to_string(),
            data_saida: Some("2024-01-02".to_string()),
        })
    );
    let ruim = peca_de_linha(
        9,
        "11111111".to_string(),
        "Pino".to_string(),
        "Lixar",
        "2023-12-31".to_string(),
        "H0000000001".to_string(),
        None,
    );
    assert_eq!(ruim, Err("Operação desconhecida: Lixar".to_string()));
}

#[test]
fn o_que_se_grava_se_le_de_volta() {
    let p = peca();
    let c = comando_inserir_peca(&p);
    let textos: Vec<String> = c
        .parametros
        .iter()
        .take(5)
        .map(|x| match x {
            Parametro::Texto(s) => s.clone(),
            _ => panic!("coluna de texto esperada"),
        })
        .collect();
    let lida = peca_de_linha(
        p.id,
        textos[0].clone(),
        textos[1].clone(),
        &textos[2],
        textos[4].clone(),
        textos[3].clone(),
        None,
    );
    assert_eq!(lida, Ok(p));
}

#[test]
fn health_check_responde() {
    let r = resposta_health_check();
    assert_eq!(r.status, StatusHttp::Sucesso);
    assert_eq!(r.corpo, "Servidor rodando!");
}

#[test]
fn post_valido_insere_e_confirma() {
    let j = corpo();
    let plano = plano_post_peca(&j);
    assert_eq!(plano.resposta.status, StatusHttp::Sucesso);
    assert_eq!(plano.resposta.corpo, "Peça cadastrada com sucesso!");
    let esperada = Peca {
        id: 0,
        codigo_pi: "12345678".to_string(),
        nome: "Haste".to_string(),
        proxima_operacao: ProximaOperacao::Curvar,
        data_entrada: "2024-05-01".to_string(),
        lote: "H0501001001".to_string(),
        data_saida: Some("2024-05-09".to_string()),
    };
    assert_eq!(plano.acao, Some(Acao::Inserir(esperada.clone())));
    let c = comando_inserir_peca(&esperada);
    assert_eq!(c.parametros[2], texto("Curvar"));
    assert_eq!(c.parametros[5], texto("2024-05-09"));
}

#[test]
fn post_invalido_nao_grava_nada() {
    let mut j = corpo();
    j.lote = "H1".to_string();
    let plano = plano_post_peca(&j);
    assert!(plano.acao.is_none());
    assert_eq!(plano.resposta.status, StatusHttp::RequisicaoInvalida);
    assert_eq!(plano.resposta.corpo, "Lote inválido — fora do padrão H + 10 dígitos.");
}

#[test]
fn put_valido_atualiza_pelo_id_do_caminho() {
    let plano = plano_put_peca(15, &corpo());
    assert_eq!(plano.resposta.status, StatusHttp::Sucesso);
    assert_eq!(plano.resposta.corpo, "Peça atualizada.");
    match plano.acao {
        Some(Acao::Atualizar(p)) => {
            assert_eq!(p.id, 15);
            assert_eq!(p.proxima_operacao, ProximaOperacao::Curvar);
            assert_eq!(p.codigo_pi, "12345678");
            let c = comando_atualizar_peca(&p);
            assert_eq!(c.parametros[6], Parametro::Inteiro(15));
        }
        outra => panic!("update esperado, veio {:?}", outra),
    }
}

#[test]
fn put_invalido_nao_grava_nada() {
    let mut j = corpo();
    j.proxima_operacao = "Dobrar".to_string();
    let plano = plano_put_peca(15, &j);
    assert!(plano.acao.is_none());
    assert_eq!(plano.resposta.status, StatusHttp::RequisicaoInvalida);
    assert_eq!(plano.resposta.corpo, "Operação desconhecida: Dobrar");
}

#[test]
fn delete_remove_pelo_id() {
    let plano = plano_delete_peca(3);
    assert_eq!(plano.resposta.status, StatusHttp::Sucesso);
    assert_eq!(plano.resposta.corpo, "Peça deletada.");
    assert_eq!(plano.acao, Some(Acao::Deletar(3)));
}
