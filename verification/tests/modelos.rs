use std::str::FromStr;

use pecas::models::{FiltrosPeca, Peca, PecaJson, ProximaOperacao};
use pecas::validation::validar_peca;

const TODAS: [ProximaOperacao; 11] = [
    ProximaOperacao::FormarPonta,
    ProximaOperacao::Trefilar,
    ProximaOperacao::Endireitar,
    ProximaOperacao::Cortar,
    ProximaOperacao::LimparBlank,
    ProximaOperacao::FormarEndForming,
    ProximaOperacao::Curvar,
    ProximaOperacao::Recalcar,
    ProximaOperacao::Rebarbar,
    ProximaOperacao::Zincar,
    ProximaOperacao::Calibrar,
];

fn corpo_valido() -> PecaJson {
    PecaJson {
        codigo_pi: "12345678".to_string(),
        nome: "31-2298 - Haste Curvada".to_string(),
        proxima_operacao: "Recalcar".to_string(),
        lote: "H0501001001".to_string(),
        data_entrada: "2024-05-01".to_string(),
        data_saida: None,
    }
}

const ERRO_CODIGO: &str = "Código PI inválido — deve ter exatamente 8 dígitos numéricos.";
const ERRO_LOTE: &str = "Lote inválido — fora do padrão H + 10 dígitos.";
const ERRO_OBRIGATORIOS: &str = "Nome e data de entrada são obrigatórios.";

#[test]
fn as_str_da_o_nome_de_cada_operacao() {
    let nomes = [
        "FormarPonta",
        "Trefilar",
        "Endireitar",
        "Cortar",
        "LimparBlank",
        "FormarEndForming",
        "Curvar",
        "Recalcar",
        "Rebarbar",
        "Zincar",
        "Calibrar",
    ];
    for (op, nome) in TODAS.iter().zip(nomes.iter()) {
        assert_eq!(op.as_str(), *nome);
    }
}

#[test]
fn nome_lido_de_volta_da_a_mesma_operacao() {
    for op in TODAS.iter() {
        assert_eq!(ProximaOperacao::from_str(op.as_str()), Ok(*op));
        assert_eq!(op.as_str().parse::<ProximaOperacao>(), Ok(*op));
        assert_eq!(ProximaOperacao::de_texto(op.as_str()), Ok(*op));
    }
}

#[test]
fn operacao_desconhecida_eh_recusada_com_o_texto() {
    assert_eq!(
        ProximaOperacao::from_str("Soldar"),
        Err("Operação desconhecida: Soldar".to_string())
    );
    // The match is exact: case and surrounding spaces count.
    assert_eq!(
        ProximaOperacao::from_str("recalcar"),
        Err("Operação desconhecida: recalcar".to_string())
    );
    assert_eq!(
        ProximaOperacao::from_str(" Recalcar"),
        Err("Operação desconhecida:  Recalcar".to_string())
    );
    assert_eq!(ProximaOperacao::from_str(""), Err("Operação desconhecida: ".to_string()));
}

#[test]
fn peca_valida_passa_com_sua_operacao() {
    assert_eq!(validar_peca(&corpo_valido()), Ok(ProximaOperacao::Recalcar));
    let mut j = corpo_valido();
    j.proxima_operacao = "Zincar".to_string();
    j.data_saida = Some("2024-06-01".to_string());
    assert_eq!(validar_peca(&j), Ok(ProximaOperacao::Zincar));
}

#[test]
fn codigo_pi_fora_do_padrao_eh_recusado() {
    for codigo in ["1234567", "123456789", "1234567a", "", "12 45678", "１２３４５６７８"] {
        let mut j = corpo_valido();
        j.codigo_pi = codigo.to_string();
        assert_eq!(validar_peca(&j), Err(ERRO_CODIGO.to_string()), "{}", codigo);
    }
}

#[test]
fn lote_fora_do_padrao_eh_recusado() {
    for lote in ["h0501001001", "H050100100", "H05010010011", "X0501001001", "H05010O1001", "", "Hé501001001"] {
        let mut j = corpo_valido();
        j.lote = lote.to_string();
        assert_eq!(validar_peca(&j), Err(ERRO_LOTE.to_string()), "{}", lote);
    }
}

#[test]
fn nome_ou_data_em_branco_eh_recusado() {
    for branco in ["", "   ", "\t\n", "\u{a0}\u{3000}"] {
        let mut j = corpo_valido();
        j.nome = branco.to_string();
        assert_eq!(validar_peca(&j), Err(ERRO_OBRIGATORIOS.to_string()));
        let mut j = corpo_valido();
        j.data_entrada = branco.to_string();
        assert_eq!(validar_peca(&j), Err(ERRO_OBRIGATORIOS.to_string()));
    }
    // Surrounding spaces around a real name are fine.
    let mut j = corpo_valido();
    j.nome = "  Haste  ".to_string();
    assert_eq!(validar_peca(&j), Ok(ProximaOperacao::Recalcar));
}

#[test]
fn operacao_invalida_no_formulario_eh_recusada() {
    let mut j = corpo_valido();
    j.proxima_operacao = "Pintar".to_string();
    assert_eq!(validar_peca(&j), Err("Operação desconhecida: Pintar".to_string()));
}

#[test]
fn regras_sao_verificadas_na_ordem() {
    let j = PecaJson {
        codigo_pi: "x".to_string(),
        nome: "".to_string(),
        proxima_operacao: "?".to_string(),
        lote: "y".to_string(),
        data_entrada: "".to_string(),
        data_saida: None,
    };
    assert_eq!(validar_peca(&j), Err(ERRO_CODIGO.to_string()));
    let mut j2 = j.clone();
    j2.codigo_pi = "00000000".to_string();
    assert_eq!(validar_peca(&j2), Err(ERRO_LOTE.to_string()));
    j2.lote = "H9999999999".to_string();
    assert_eq!(validar_peca(&j2), Err(ERRO_OBRIGATORIOS.to_string()));
    j2.nome = "n".to_string();
    j2.data_entrada = "d".to_string();
    assert_eq!(validar_peca(&j2), Err("Operação desconhecida: ?".to_string()));
}

#[test]
fn tipos_de_dados_se_constroem_e_comparam() {
    let p = Peca {
        id: 3,
        codigo_pi: "12345678".to_string(),
        nome: "n".to_string(),
        proxima_operacao: ProximaOperacao::Cortar,
        data_entrada: "2024-01-01".to_string(),
        lote: "H0000000000".to_string(),
        data_saida: None,
    };
    assert_eq!(p.clone(), p);
    let f = FiltrosPeca {
        codigo_pi: None,
        nome: None,
        lote: None,
        proxima_operacao: None,
        data_entrada: None,
        data_saida: None,
    };
    assert_eq!(f.clone(), f);
}
