use vstd::prelude::*;

use crate::texto::{
    comeca_com, contem, lema_comeca_com_mais_depois, lema_contem_a_si, lema_contem_mais_antes,
    lema_contem_mais_depois, lema_contem_meio, lema_termina_com_ultimo, termina_com,
};
use crate::models::{
    nome_operacao, operacao_de_texto, visao_resultado, FiltrosPeca, Peca, ProximaOperacao,
};

verus! {

/// A value bound to one placeholder of a statement.
#[derive(Debug, Clone, PartialEq, Eq)]
pub enum Parametro {
    Texto(String),
    Nulo,
    Inteiro(i32),
}

/// A bound value as the contracts see it.
pub enum ValorSql {
    Texto(Seq<char>),
    Nulo,
    Inteiro(int),
}

impl View for Parametro {
    type V = ValorSql;

    open spec fn view(&self) -> ValorSql {
        match self {
            Parametro::Texto(s) => ValorSql::Texto(s@),
            Parametro::Nulo => ValorSql::Nulo,
            Parametro::Inteiro(n) => ValorSql::Inteiro(*n as int),
        }
    }
}

/// An SQL statement and the values of its placeholders, in order.
#[derive(Debug, Clone, PartialEq, Eq)]
pub struct Comando {
    pub sql: String,
    pub parametros: Vec<Parametro>,
}

/// The values of a statement's placeholders.
pub open spec fn valores(c: Comando) -> Seq<ValorSql> {
    c.parametros@.map_values(|p: Parametro| p@)
}

/// An optional text column: its text, or SQL `NULL`.
pub open spec fn valor_opcional(o: Option<String>) -> ValorSql {
    match o {
        Some(s) => ValorSql::Texto(s@),
        None => ValorSql::Nulo,
    }
}

// ---------------------------------------------------------------------------
// Counting placeholders

/// The number of `?` from position `i` of `s` on.
pub open spec fn marcadores_desde(s: Seq<char>, i: int) -> nat
    decreases s.len() - i,
{
    if i < 0 || i >= s.len() {
        0
    } else {
        (if s[i] == '?' { 1nat } else { 0nat }) + marcadores_desde(s, i + 1)
    }
}

/// The number of placeholders (`?` or `?N`) in an SQL text.
pub open spec fn marcadores(s: Seq<char>) -> nat {
    marcadores_desde(s, 0)
}

proof fn lema_marcadores_cauda(a: Seq<char>, b: Seq<char>, j: int)
    requires
        0 <= j <= b.len(),
    ensures
        marcadores_desde(a + b, a.len() + j) == marcadores_desde(b, j),
    decreases b.len() - j,
{
    if j < b.len() {
        lema_marcadores_cauda(a, b, j + 1);
        assert((a + b)[a.len() + j] == b[j]);
    }
}

proof fn lema_marcadores_desde_juncao(a: Seq<char>, b: Seq<char>, i: int)
    requires
        0 <= i <= a.len(),
    ensures
        marcadores_desde(a + b, i) == marcadores_desde(a, i) + marcadores(b),
    decreases a.len() - i,
{
    if i < a.len() {
        lema_marcadores_desde_juncao(a, b, i + 1);
        assert((a + b)[i] == a[i]);
    } else {
        lema_marcadores_cauda(a, b, 0);
    }
}

/// The placeholders of two joined texts are those of each.
pub proof fn lema_marcadores_juncao(a: Seq<char>, b: Seq<char>)
    ensures
        marcadores(a + b) == marcadores(a) + marcadores(b),
{
    lema_marcadores_desde_juncao(a, b, 0);
}

// ---------------------------------------------------------------------------
// The table

pub open spec fn sql_criar_tabela() -> Seq<char> {
    "CREATE TABLE IF NOT EXISTS pecas (\n            "@
        + "id               INTEGER PRIMARY KEY AUTOINCREMENT"@
        + ",\n            "@
        + "codigo_pi        TEXT NOT NULL"@
        + ",\n            "@
        + "nome             TEXT NOT NULL"@
        + ",\n            "@
        + "proxima_operacao TEXT NOT NULL"@
        + ",\n            "@
        + "data_entrada     TEXT NOT NULL"@
        + ",\n            "@
        + "lote             TEXT NOT NULL"@
        + ",\n            "@
        + "data_saida       TEXT"@
        + "\n        );"@
}

/// The table declares the id as the integer key and every other field of a
/// part as `TEXT`, so what is bound as text is read back as the same text; only
/// the exit date may be `NULL`.
pub proof fn lema_colunas_da_tabela()
    ensures
        contem(sql_criar_tabela(), "id               INTEGER PRIMARY KEY AUTOINCREMENT"@),
        contem(sql_criar_tabela(), "codigo_pi        TEXT NOT NULL"@),
        contem(sql_criar_tabela(), "nome             TEXT NOT NULL"@),
        contem(sql_criar_tabela(), "proxima_operacao TEXT NOT NULL"@),
        contem(sql_criar_tabela(), "data_entrada     TEXT NOT NULL"@),
        contem(sql_criar_tabela(), "lote             TEXT NOT NULL"@),
        contem(sql_criar_tabela(), "data_saida       TEXT"@),
{
    let sep = ",\n            "@;
    let abre = "CREATE TABLE IF NOT EXISTS pecas (\n            "@;
    let id = "id               INTEGER PRIMARY KEY AUTOINCREMENT"@;
    let codigo = "codigo_pi        TEXT NOT NULL"@;
    let nome = "nome             TEXT NOT NULL"@;
    let operacao = "proxima_operacao TEXT NOT NULL"@;
    let entrada = "data_entrada     TEXT NOT NULL"@;
    let lote = "lote             TEXT NOT NULL"@;
    let saida = "data_saida       TEXT"@;
    let fecha = "\n        );"@;
    // The statement, one piece at a time.
    let t0 = abre;
    let t1 = t0 + id;
    let t2 = t1 + sep;
    let t3 = t2 + codigo;
    let t4 = t3 + sep;
    let t5 = t4 + nome;
    let t6 = t5 + sep;
    let t7 = t6 + operacao;
    let t8 = t7 + sep;
    let t9 = t8 + entrada;
    let t10 = t9 + sep;
    let t11 = t10 + lote;
    let t12 = t11 + sep;
    let t13 = t12 + saida;
    let t14 = t13 + fecha;
    assert(sql_criar_tabela() == t14);
    lema_contem_a_si(id);
    lema_contem_mais_antes(t0, id, id);
    lema_contem_mais_depois(t1, id, sep);
    lema_contem_mais_depois(t2, id, codigo);
    lema_contem_mais_depois(t3, id, sep);
    lema_contem_mais_depois(t4, id, nome);
    lema_contem_mais_depois(t5, id, sep);
    lema_contem_mais_depois(t6, id, operacao);
    lema_contem_mais_depois(t7, id, sep);
    lema_contem_mais_depois(t8, id, entrada);
    lema_contem_mais_depois(t9, id, sep);
    lema_contem_mais_depois(t10, id, lote);
    lema_contem_mais_depois(t11, id, sep);
    lema_contem_mais_depois(t12, id, saida);
    lema_contem_mais_depois(t13, id, fecha);
    lema_contem_a_si(codigo);
    lema_contem_mais_antes(t2, codigo, codigo);
    lema_contem_mais_depois(t3, codigo, sep);
    lema_contem_mais_depois(t4, codigo, nome);
    lema_contem_mais_depois(t5, codigo, sep);
    lema_contem_mais_depois(t6, codigo, operacao);
    lema_contem_mais_depois(t7, codigo, sep);
    lema_contem_mais_depois(t8, codigo, entrada);
    lema_contem_mais_depois(t9, codigo, sep);
    lema_contem_mais_depois(t10, codigo, lote);
    lema_contem_mais_depois(t11, codigo, sep);
    lema_contem_mais_depois(t12, codigo, saida);
    lema_contem_mais_depois(t13, codigo, fecha);
    lema_contem_a_si(nome);
    lema_contem_mais_antes(t4, nome, nome);
    lema_contem_mais_depois(t5, nome, sep);
    lema_contem_mais_depois(t6, nome, operacao);
    lema_contem_mais_depois(t7, nome, sep);
    lema_contem_mais_depois(t8, nome, entrada);
    lema_contem_mais_depois(t9, nome, sep);
    lema_contem_mais_depois(t10, nome, lote);
    lema_contem_mais_depois(t11, nome, sep);
    lema_contem_mais_depois(t12, nome, saida);
    lema_contem_mais_depois(t13, nome, fecha);
    lema_contem_a_si(operacao);
    lema_contem_mais_antes(t6, operacao, operacao);
    lema_contem_mais_depois(t7, operacao, sep);
    lema_contem_mais_depois(t8, operacao, entrada);
    lema_contem_mais_depois(t9, operacao, sep);
    lema_contem_mais_depois(t10, operacao, lote);
    lema_contem_mais_depois(t11, operacao, sep);
    lema_contem_mais_depois(t12, operacao, saida);
    lema_contem_mais_depois(t13, operacao, fecha);
    lema_contem_a_si(entrada);
    lema_contem_mais_antes(t8, entrada, entrada);
    lema_contem_mais_depois(t9, entrada, sep);
    lema_contem_mais_depois(t10, entrada, lote);
    lema_contem_mais_depois(t11, entrada, sep);
    lema_contem_mais_depois(t12, entrada, saida);
    lema_contem_mais_depois(t13, entrada, fecha);
    lema_contem_a_si(lote);
    lema_contem_mais_antes(t10, lote, lote);
    lema_contem_mais_depois(t11, lote, sep);
    lema_contem_mais_depois(t12, lote, saida);
    lema_contem_mais_depois(t13, lote, fecha);
    lema_contem_a_si(saida);
    lema_contem_mais_antes(t12, saida, saida);
    lema_contem_mais_depois(t13, saida, fecha);
}

/// The statement that creates the `pecas` table when it does not exist yet.
pub fn comando_criar_tabela() -> (r: Comando)
    ensures
        r.sql@ == sql_criar_tabela(),
        valores(r) == Seq::<ValorSql>::empty(),
        contem(r.sql@, "id               INTEGER PRIMARY KEY AUTOINCREMENT"@),
        contem(r.sql@, "codigo_pi        TEXT NOT NULL"@),
        contem(r.sql@, "nome             TEXT NOT NULL"@),
        contem(r.sql@, "proxima_operacao TEXT NOT NULL"@),
        contem(r.sql@, "data_entrada     TEXT NOT NULL"@),
        contem(r.sql@, "lote             TEXT NOT NULL"@),
        contem(r.sql@, "data_saida       TEXT"@),
{
    let mut sql = String::from_str("CREATE TABLE IF NOT EXISTS pecas (\n            ");
    sql.append("id               INTEGER PRIMARY KEY AUTOINCREMENT");
    sql.append(",\n            ");
    sql.append("codigo_pi        TEXT NOT NULL");
    sql.append(",\n            ");
    sql.append("nome             TEXT NOT NULL");
    sql.append(",\n            ");
    sql.append("proxima_operacao TEXT NOT NULL");
    sql.append(",\n            ");
    sql.append("data_entrada     TEXT NOT NULL");
    sql.append(",\n            ");
    sql.append("lote             TEXT NOT NULL");
    sql.append(",\n            ");
    sql.append("data_saida       TEXT");
    sql.append("\n        );");
    let r = Comando { sql, parametros: Vec::new() };
    proof {
        lema_colunas_da_tabela();
    }
    assert(valores(r) =~= Seq::<ValorSql>::empty());
    r
}

/// The text of an optional column as a placeholder value.
fn parametro_opcional(o: &Option<String>) -> (r: Parametro)
    ensures
        r@ == valor_opcional(*o),
{
    match o {
        Some(s) => Parametro::Texto(s.clone()),
        None => Parametro::Nulo,
    }
}

// ---------------------------------------------------------------------------
// Storing a part

pub open spec fn sql_inserir() -> Seq<char> {
    "INSERT INTO pecas "@ + "(codigo_pi, nome, proxima_operacao, lote, data_entrada, data_saida)"@
        + "\n         VALUES "@ + "(?1, ?2, ?3, ?4, ?5, ?6)"@
}

/// The columns of a part, in the order in which the insert and the update bind
/// them; the step is bound by its name.
pub open spec fn valores_colunas(p: Peca) -> Seq<ValorSql> {
    seq![
        ValorSql::Texto(p.codigo_pi@),
        ValorSql::Texto(p.nome@),
        ValorSql::Texto(nome_operacao(p.proxima_operacao)),
        ValorSql::Texto(p.lote@),
        ValorSql::Texto(p.data_entrada@),
        valor_opcional(p.data_saida),
    ]
}

/// The insert names its columns in the order codigo_pi, nome,
/// proxima_operacao, lote, data_entrada, data_saida, and binds them to `?1`
/// to `?6`; each value lands in the column of the same field of the part: the
/// PI code first, the name, the step's name, the batch, the entry date, and
/// the exit date or `NULL`.
pub proof fn lema_insert_por_coluna(p: Peca)
    ensures
        contem(sql_inserir(), "(codigo_pi, nome, proxima_operacao, lote, data_entrada, data_saida)"@),
        contem(sql_inserir(), "(?1, ?2, ?3, ?4, ?5, ?6)"@),
        valores_colunas(p).len() == 6,
        valores_colunas(p)[0] == ValorSql::Texto(p.codigo_pi@),
        valores_colunas(p)[1] == ValorSql::Texto(p.nome@),
        valores_colunas(p)[2] == ValorSql::Texto(nome_operacao(p.proxima_operacao)),
        valores_colunas(p)[3] == ValorSql::Texto(p.lote@),
        valores_colunas(p)[4] == ValorSql::Texto(p.data_entrada@),
        p.data_saida matches Some(s) ==> valores_colunas(p)[5] == ValorSql::Texto(s@),
        p.data_saida is None ==> valores_colunas(p)[5] == ValorSql::Nulo,
{
    let a = "INSERT INTO pecas "@;
    let b = "(codigo_pi, nome, proxima_operacao, lote, data_entrada, data_saida)"@;
    let c = "\n         VALUES "@;
    let d = "(?1, ?2, ?3, ?4, ?5, ?6)"@;
    assert(sql_inserir() =~= a + b + (c + d));
    lema_contem_meio(a, b, c + d);
    assert(sql_inserir() =~= (a + b + c) + d + Seq::<char>::empty());
    lema_contem_meio(a + b + c, d, Seq::<char>::empty());
}

proof fn lema_marcadores_inserir()
    ensures
        marcadores(sql_inserir()) == 6,
{
    let a = "INSERT INTO pecas "@;
    let b = "(codigo_pi, nome, proxima_operacao, lote, data_entrada, data_saida)"@;
    let c = "\n         VALUES "@;
    let d = "(?1, ?2, ?3, ?4, ?5, ?6)"@;
    assert(marcadores(a) == 0) by {
        reveal_strlit("INSERT INTO pecas ");
        reveal_with_fuel(marcadores_desde, 20);
    }
    assert(marcadores(b) == 0) by {
        reveal_strlit("(codigo_pi, nome, proxima_operacao, lote, data_entrada, data_saida)");
        reveal_with_fuel(marcadores_desde, 70);
    }
    assert(marcadores(c) == 0) by {
        reveal_strlit("\n         VALUES ");
        reveal_with_fuel(marcadores_desde, 20);
    }
    assert(marcadores(d) == 6) by {
        reveal_strlit("(?1, ?2, ?3, ?4, ?5, ?6)");
        reveal_with_fuel(marcadores_desde, 26);
    }
    lema_marcadores_juncao(a, b);
    lema_marcadores_juncao(a + b, c);
    lema_marcadores_juncao(a + b + c, d);
}

/// The columns of a part, in bind order.
fn parametros_colunas(p: &Peca) -> (r: Vec<Parametro>)
    ensures
        r@.map_values(|x: Parametro| x@) == valores_colunas(*p),
{
    let mut r: Vec<Parametro> = Vec::new();
    r.push(Parametro::Texto(p.codigo_pi.clone()));
    r.push(Parametro::Texto(p.nome.clone()));
    r.push(Parametro::Texto(String::from_str(p.proxima_operacao.as_str())));
    r.push(Parametro::Texto(p.lote.clone()));
    r.push(Parametro::Texto(p.data_entrada.clone()));
    r.push(parametro_opcional(&p.data_saida));
    assert(r@.map_values(|x: Parametro| x@) =~= valores_colunas(*p));
    r
}

/// The statement that stores a new part; the database gives it its id.
pub fn comando_inserir_peca(peca: &Peca) -> (r: Comando)
    ensures
        r.sql@ == sql_inserir(),
        valores(r) == valores_colunas(*peca),
        marcadores(r.sql@) == valores(r).len(),
        contem(r.sql@, "(codigo_pi, nome, proxima_operacao, lote, data_entrada, data_saida)"@),
        contem(r.sql@, "(?1, ?2, ?3, ?4, ?5, ?6)"@),
        valores(r).len() == 6,
        valores(r)[0] == ValorSql::Texto(peca.codigo_pi@),
        valores(r)[1] == ValorSql::Texto(peca.nome@),
        valores(r)[2] == ValorSql::Texto(nome_operacao(peca.proxima_operacao)),
        valores(r)[3] == ValorSql::Texto(peca.lote@),
        valores(r)[4] == ValorSql::Texto(peca.data_entrada@),
        peca.data_saida matches Some(s) ==> valores(r)[5] == ValorSql::Texto(s@),
        peca.data_saida is None ==> valores(r)[5] == ValorSql::Nulo,
{
    let mut sql = String::from_str("INSERT INTO pecas ");
    sql.append("(codigo_pi, nome, proxima_operacao, lote, data_entrada, data_saida)");
    sql.append("\n         VALUES ");
    sql.append("(?1, ?2, ?3, ?4, ?5, ?6)");
    proof {
        lema_marcadores_inserir();
        lema_insert_por_coluna(*peca);
    }
    Comando { sql, parametros: parametros_colunas(peca) }
}

// ---------------------------------------------------------------------------
// Updating a part

pub open spec fn sql_atualizar() -> Seq<char> {
    "UPDATE pecas SET\n"@
        + "            codigo_pi        = ?1,\n"@
        + "            nome             = ?2,\n"@
        + "            proxima_operacao = ?3,\n"@
        + "            lote             = ?4,\n"@
        + "            data_entrada     = ?5,\n"@
        + "            data_saida       = ?6\n"@
        + "         WHERE id = ?7"@
}

/// The values of the update: the columns of the part, then its id.
pub open spec fn valores_atualizar(p: Peca) -> Seq<ValorSql> {
    valores_colunas(p).push(ValorSql::Inteiro(p.id as int))
}

/// The update sets each column from the placeholder of the same field, `?1`
/// to `?6` in the insert's order, and picks the row by `id = ?7`; the values
/// are the fields of the part in that order, then its id.
pub proof fn lema_update_por_coluna(p: Peca)
    ensures
        contem(sql_atualizar(), "            codigo_pi        = ?1,\n"@),
        contem(sql_atualizar(), "            nome             = ?2,\n"@),
        contem(sql_atualizar(), "            proxima_operacao = ?3,\n"@),
        contem(sql_atualizar(), "            lote             = ?4,\n"@),
        contem(sql_atualizar(), "            data_entrada     = ?5,\n"@),
        contem(sql_atualizar(), "            data_saida       = ?6\n"@),
        contem(sql_atualizar(), "         WHERE id = ?7"@),
        valores_atualizar(p).len() == 7,
        valores_atualizar(p)[0] == ValorSql::Texto(p.codigo_pi@),
        valores_atualizar(p)[1] == ValorSql::Texto(p.nome@),
        valores_atualizar(p)[2] == ValorSql::Texto(nome_operacao(p.proxima_operacao)),
        valores_atualizar(p)[3] == ValorSql::Texto(p.lote@),
        valores_atualizar(p)[4] == ValorSql::Texto(p.data_entrada@),
        p.data_saida matches Some(s) ==> valores_atualizar(p)[5] == ValorSql::Texto(s@),
        p.data_saida is None ==> valores_atualizar(p)[5] == ValorSql::Nulo,
        valores_atualizar(p)[6] == ValorSql::Inteiro(p.id as int),
{
    let a = "UPDATE pecas SET\n"@;
    let b = "            codigo_pi        = ?1,\n"@;
    let c = "            nome             = ?2,\n"@;
    let d = "            proxima_operacao = ?3,\n"@;
    let e = "            lote             = ?4,\n"@;
    let f = "            data_entrada     = ?5,\n"@;
    let g = "            data_saida       = ?6\n"@;
    let h = "         WHERE id = ?7"@;
    assert(sql_atualizar() =~= (a) + b + (c + d + e + f + g + h));
    lema_contem_meio(a, b, c + d + e + f + g + h);
    assert(sql_atualizar() =~= (a + b) + c + (d + e + f + g + h));
    lema_contem_meio(a + b, c, d + e + f + g + h);
    assert(sql_atualizar() =~= (a + b + c) + d + (e + f + g + h));
    lema_contem_meio(a + b + c, d, e + f + g + h);
    assert(sql_atualizar() =~= (a + b + c + d) + e + (f + g + h));
    lema_contem_meio(a + b + c + d, e, f + g + h);
    assert(sql_atualizar() =~= (a + b + c + d + e) + f + (g + h));
    lema_contem_meio(a + b + c + d + e, f, g + h);
    assert(sql_atualizar() =~= (a + b + c + d + e + f) + g + (h));
    lema_contem_meio(a + b + c + d + e + f, g, h);
    assert(sql_atualizar() =~= (a + b + c + d + e + f + g) + h + (Seq::<char>::empty()));
    lema_contem_meio(a + b + c + d + e + f + g, h, Seq::<char>::empty());
    lema_insert_por_coluna(p);
}

proof fn lema_marcadores_atualizar()
    ensures
        marcadores(sql_atualizar()) == 7,
{
    let a = "UPDATE pecas SET\n"@;
    let b = "            codigo_pi        = ?1,\n"@;
    let c = "            nome             = ?2,\n"@;
    let d = "            proxima_operacao = ?3,\n"@;
    let e = "            lote             = ?4,\n"@;
    let f = "            data_entrada     = ?5,\n"@;
    let g = "            data_saida       = ?6\n"@;
    let h = "         WHERE id = ?7"@;
    assert(marcadores(a) == 0) by {
        reveal_strlit("UPDATE pecas SET\n");
        reveal_with_fuel(marcadores_desde, 40);
    }
    assert(marcadores(b) == 1) by {
        reveal_strlit("            codigo_pi        = ?1,\n");
        reveal_with_fuel(marcadores_desde, 40);
    }
    assert(marcadores(c) == 1) by {
        reveal_strlit("            nome             = ?2,\n");
        reveal_with_fuel(marcadores_desde, 40);
    }
    assert(marcadores(d) == 1) by {
        reveal_strlit("            proxima_operacao = ?3,\n");
        reveal_with_fuel(marcadores_desde, 40);
    }
    assert(marcadores(e) == 1) by {
        reveal_strlit("            lote             = ?4,\n");
        reveal_with_fuel(marcadores_desde, 40);
    }
    assert(marcadores(f) == 1) by {
        reveal_strlit("            data_entrada     = ?5,\n");
        reveal_with_fuel(marcadores_desde, 40);
    }
    assert(marcadores(g) == 1) by {
        reveal_strlit("            data_saida       = ?6\n");
        reveal_with_fuel(marcadores_desde, 40);
    }
    assert(marcadores(h) == 1) by {
        reveal_strlit("         WHERE id = ?7");
        reveal_with_fuel(marcadores_desde, 40);
    }
    lema_marcadores_juncao(a, b);
    lema_marcadores_juncao(a + b, c);
    lema_marcadores_juncao(a + b + c, d);
    lema_marcadores_juncao(a + b + c + d, e);
    lema_marcadores_juncao(a + b + c + d + e, f);
    lema_marcadores_juncao(a + b + c + d + e + f, g);
    lema_marcadores_juncao(a + b + c + d + e + f + g, h);
}

/// The statement that rewrites every column of the part with the given id.
pub fn comando_atualizar_peca(peca: &Peca) -> (r: Comando)
    ensures
        r.sql@ == sql_atualizar(),
        valores(r) == valores_atualizar(*peca),
        marcadores(r.sql@) == valores(r).len(),
        contem(r.sql@, "            codigo_pi        = ?1,\n"@),
        contem(r.sql@, "            nome             = ?2,\n"@),
        contem(r.sql@, "            proxima_operacao = ?3,\n"@),
        contem(r.sql@, "            lote             = ?4,\n"@),
        contem(r.sql@, "            data_entrada     = ?5,\n"@),
        contem(r.sql@, "            data_saida       = ?6\n"@),
        contem(r.sql@, "         WHERE id = ?7"@),
        valores(r).len() == 7,
        valores(r)[0] == ValorSql::Texto(peca.codigo_pi@),
        valores(r)[1] == ValorSql::Texto(peca.nome@),
        valores(r)[2] == ValorSql::Texto(nome_operacao(peca.proxima_operacao)),
        valores(r)[3] == ValorSql::Texto(peca.lote@),
        valores(r)[4] == ValorSql::Texto(peca.data_entrada@),
        peca.data_saida matches Some(s) ==> valores(r)[5] == ValorSql::Texto(s@),
        peca.data_saida is None ==> valores(r)[5] == ValorSql::Nulo,
        valores(r)[6] == ValorSql::Inteiro(peca.id as int),
{
    let mut sql = String::from_str("UPDATE pecas SET\n");
    sql.append("            codigo_pi        = ?1,\n");
    sql.append("            nome             = ?2,\n");
    sql.append("            proxima_operacao = ?3,\n");
    sql.append("            lote             = ?4,\n");
    sql.append("            data_entrada     = ?5,\n");
    sql.append("            data_saida       = ?6\n");
    sql.append("         WHERE id = ?7");
    let mut parametros = parametros_colunas(peca);
    parametros.push(Parametro::Inteiro(peca.id));
    proof {
        lema_marcadores_atualizar();
        lema_update_por_coluna(*peca);
        assert(parametros@.map_values(|x: Parametro| x@) =~= valores_atualizar(*peca));
    }
    Comando { sql, parametros }
}

// ---------------------------------------------------------------------------
// Removing a part

pub open spec fn sql_deletar() -> Seq<char> {
    "DELETE FROM pecas WHERE id = ?1"@
}

/// The statement that removes the part with the given id.
pub fn comando_deletar_peca(id: i32) -> (r: Comando)
    ensures
        r.sql@ == sql_deletar(),
        r.sql@ == "DELETE FROM pecas WHERE id = ?1"@,
        valores(r) == seq![ValorSql::Inteiro(id as int)],
        marcadores(r.sql@) == valores(r).len(),
{
    let mut parametros: Vec<Parametro> = Vec::new();
    parametros.push(Parametro::Inteiro(id));
    proof {
        reveal_strlit("DELETE FROM pecas WHERE id = ?1");
        reveal_with_fuel(marcadores_desde, 35);
        assert(parametros@.map_values(|x: Parametro| x@) =~= seq![ValorSql::Inteiro(id as int)]);
    }
    Comando { sql: String::from_str("DELETE FROM pecas WHERE id = ?1"), parametros }
}

// ---------------------------------------------------------------------------
// Listing parts

pub open spec fn sql_base_consulta() -> Seq<char> {
    "SELECT id, codigo_pi, nome, proxima_operacao, data_entrada, lote, data_saida FROM pecas WHERE 1=1"@
}

pub open spec fn sql_ordem_consulta() -> Seq<char> {
    " ORDER BY id DESC"@
}

proof fn lema_marcadores_base_consulta()
    ensures
        marcadores(sql_base_consulta()) == 0,
{
    reveal_strlit(
        "SELECT id, codigo_pi, nome, proxima_operacao, data_entrada, lote, data_saida FROM pecas WHERE 1=1",
    );
    reveal_with_fuel(marcadores_desde, 100);
}

/// The clause of a filter: present only when the filter is given.
pub open spec fn se_filtro(filtro: Option<String>, clausula: Seq<char>) -> Seq<char> {
    if filtro is Some {
        clausula
    } else {
        Seq::empty()
    }
}

/// The `LIKE` pattern that finds `v` anywhere in a column.
pub open spec fn padrao_contem(v: Seq<char>) -> Seq<char> {
    "%"@ + v + "%"@
}

/// The value of a filter's placeholder, when the filter is given.
pub open spec fn valor_filtro(filtro: Option<String>) -> Seq<ValorSql> {
    match filtro {
        Some(v) => seq![ValorSql::Texto(padrao_contem(v@))],
        None => Seq::empty(),
    }
}

/// The listing: every column of the parts that meet all the given filters,
/// newest first. The filters are taken in a fixed order: PI code, name, batch,
/// step, entry date, exit date.
pub open spec fn sql_consulta(f: FiltrosPeca) -> Seq<char> {
    sql_base_consulta() + se_filtro(f.codigo_pi, " AND codigo_pi LIKE ?"@) + se_filtro(
        f.nome,
        " AND nome LIKE ?"@,
    ) + se_filtro(f.lote, " AND lote LIKE ?"@) + se_filtro(
        f.proxima_operacao,
        " AND proxima_operacao LIKE ?"@,
    ) + se_filtro(f.data_entrada, " AND data_entrada LIKE ?"@) + se_filtro(
        f.data_saida,
        " AND data_saida LIKE ?"@,
    ) + sql_ordem_consulta()
}

/// The values of the listing's placeholders: one pattern per given filter, in
/// the order of the clauses.
pub open spec fn valores_consulta(f: FiltrosPeca) -> Seq<ValorSql> {
    valor_filtro(f.codigo_pi) + valor_filtro(f.nome) + valor_filtro(f.lote) + valor_filtro(
        f.proxima_operacao,
    ) + valor_filtro(f.data_entrada) + valor_filtro(f.data_saida)
}

/// Whether a filter is given: one placeholder value when it is, none when not.
pub open spec fn um_se_dado(filtro: Option<String>) -> int {
    if filtro is Some {
        1
    } else {
        0
    }
}

/// Each given filter binds, at its place among the given filters (in the order
/// PI code, name, batch, step, entry date, exit date), the pattern `%v%` of its
/// value `v`, so that the listing finds `v` anywhere in the column; a filter
/// that is not given binds nothing.
pub proof fn lema_padroes_da_consulta(f: FiltrosPeca)
    ensures
        valores_consulta(f).len() == um_se_dado(f.codigo_pi) + um_se_dado(f.nome) + um_se_dado(
            f.lote,
        ) + um_se_dado(f.proxima_operacao) + um_se_dado(f.data_entrada) + um_se_dado(
            f.data_saida,
        ),
        f.codigo_pi matches Some(v) ==> valores_consulta(f)[0] == ValorSql::Texto(
            "%"@ + v@ + "%"@,
        ),
        f.nome matches Some(v) ==> valores_consulta(f)[um_se_dado(f.codigo_pi)]
            == ValorSql::Texto("%"@ + v@ + "%"@),
        f.lote matches Some(v) ==> valores_consulta(f)[um_se_dado(f.codigo_pi) + um_se_dado(
            f.nome,
        )] == ValorSql::Texto("%"@ + v@ + "%"@),
        f.proxima_operacao matches Some(v) ==> valores_consulta(f)[um_se_dado(f.codigo_pi)
            + um_se_dado(f.nome) + um_se_dado(f.lote)] == ValorSql::Texto("%"@ + v@ + "%"@),
        f.data_entrada matches Some(v) ==> valores_consulta(f)[um_se_dado(f.codigo_pi)
            + um_se_dado(f.nome) + um_se_dado(f.lote) + um_se_dado(f.proxima_operacao)]
            == ValorSql::Texto("%"@ + v@ + "%"@),
        f.data_saida matches Some(v) ==> valores_consulta(f)[um_se_dado(f.codigo_pi)
            + um_se_dado(f.nome) + um_se_dado(f.lote) + um_se_dado(f.proxima_operacao)
            + um_se_dado(f.data_entrada)] == ValorSql::Texto("%"@ + v@ + "%"@),
{
    let a = valor_filtro(f.codigo_pi);
    let b = valor_filtro(f.nome);
    let c = valor_filtro(f.lote);
    let d = valor_filtro(f.proxima_operacao);
    let e = valor_filtro(f.data_entrada);
    let g = valor_filtro(f.data_saida);
    assert(a.len() == um_se_dado(f.codigo_pi));
    assert(b.len() == um_se_dado(f.nome));
    assert(c.len() == um_se_dado(f.lote));
    assert(d.len() == um_se_dado(f.proxima_operacao));
    assert(e.len() == um_se_dado(f.data_entrada));
    assert(g.len() == um_se_dado(f.data_saida));
    let ab = a + b;
    let abc = ab + c;
    let abcd = abc + d;
    let abcde = abcd + e;
    assert(valores_consulta(f) == abcde + g);
    if let Some(v) = f.codigo_pi {
        assert(a[0] == ValorSql::Texto("%"@ + v@ + "%"@));
        assert(ab[0] == a[0]);
        assert(abc[0] == a[0]);
        assert(abcd[0] == a[0]);
        assert(abcde[0] == a[0]);
    }
    if let Some(v) = f.nome {
        let k = a.len() as int;
        assert(ab[k] == b[0]);
        assert(abc[k] == b[0]);
        assert(abcd[k] == b[0]);
        assert(abcde[k] == b[0]);
    }
    if let Some(v) = f.lote {
        let k = ab.len() as int;
        assert(abc[k] == c[0]);
        assert(abcd[k] == c[0]);
        assert(abcde[k] == c[0]);
    }
    if let Some(v) = f.proxima_operacao {
        let k = abc.len() as int;
        assert(abcd[k] == d[0]);
        assert(abcde[k] == d[0]);
    }
    if let Some(v) = f.data_entrada {
        let k = abcd.len() as int;
        assert(abcde[k] == e[0]);
    }
}

/// The listing selects every column from `pecas`, ends by ordering on the id,
/// newest first, and holds, for each given filter, the clause that compares
/// its column with `LIKE`.
pub proof fn lema_texto_da_consulta(f: FiltrosPeca)
    ensures
        comeca_com(sql_consulta(f), "SELECT id, codigo_pi, nome, proxima_operacao, data_entrada, lote, data_saida FROM pecas WHERE 1=1"@),
        termina_com(sql_consulta(f), " ORDER BY id DESC"@),
        f.codigo_pi is Some ==> contem(sql_consulta(f), " AND codigo_pi LIKE ?"@),
        f.nome is Some ==> contem(sql_consulta(f), " AND nome LIKE ?"@),
        f.lote is Some ==> contem(sql_consulta(f), " AND lote LIKE ?"@),
        f.proxima_operacao is Some ==> contem(sql_consulta(f), " AND proxima_operacao LIKE ?"@),
        f.data_entrada is Some ==> contem(sql_consulta(f), " AND data_entrada LIKE ?"@),
        f.data_saida is Some ==> contem(sql_consulta(f), " AND data_saida LIKE ?"@),
{
    let b = "SELECT id, codigo_pi, nome, proxima_operacao, data_entrada, lote, data_saida FROM pecas WHERE 1=1"@;
    let c0 = se_filtro(f.codigo_pi, " AND codigo_pi LIKE ?"@);
    let c1 = se_filtro(f.nome, " AND nome LIKE ?"@);
    let c2 = se_filtro(f.lote, " AND lote LIKE ?"@);
    let c3 = se_filtro(f.proxima_operacao, " AND proxima_operacao LIKE ?"@);
    let c4 = se_filtro(f.data_entrada, " AND data_entrada LIKE ?"@);
    let c5 = se_filtro(f.data_saida, " AND data_saida LIKE ?"@);
    let o = " ORDER BY id DESC"@;
    let p0 = b + c0;
    let p1 = p0 + c1;
    let p2 = p1 + c2;
    let p3 = p2 + c3;
    let p4 = p3 + c4;
    let p5 = p4 + c5;
    assert(sql_consulta(f) == p5 + o);
    assert(comeca_com(b, b)) by {
        assert(b.subrange(0, b.len() as int) =~= b);
    }
    lema_comeca_com_mais_depois(b, b, c0);
    lema_comeca_com_mais_depois(p0, b, c1);
    lema_comeca_com_mais_depois(p1, b, c2);
    lema_comeca_com_mais_depois(p2, b, c3);
    lema_comeca_com_mais_depois(p3, b, c4);
    lema_comeca_com_mais_depois(p4, b, c5);
    lema_comeca_com_mais_depois(p5, b, o);
    lema_termina_com_ultimo(p5, o);
    if f.codigo_pi is Some {
        lema_contem_a_si(c0);
        lema_contem_mais_antes(b, c0, c0);
        lema_contem_mais_depois(p0, c0, c1);
        lema_contem_mais_depois(p1, c0, c2);
        lema_contem_mais_depois(p2, c0, c3);
        lema_contem_mais_depois(p3, c0, c4);
        lema_contem_mais_depois(p4, c0, c5);
        lema_contem_mais_depois(p5, c0, o);
    }
    if f.nome is Some {
        lema_contem_a_si(c1);
        lema_contem_mais_antes(p0, c1, c1);
        lema_contem_mais_depois(p1, c1, c2);
        lema_contem_mais_depois(p2, c1, c3);
        lema_contem_mais_depois(p3, c1, c4);
        lema_contem_mais_depois(p4, c1, c5);
        lema_contem_mais_depois(p5, c1, o);
    }
    if f.lote is Some {
        lema_contem_a_si(c2);
        lema_contem_mais_antes(p1, c2, c2);
        lema_contem_mais_depois(p2, c2, c3);
        lema_contem_mais_depois(p3, c2, c4);
        lema_contem_mais_depois(p4, c2, c5);
        lema_contem_mais_depois(p5, c2, o);
    }
    if f.proxima_operacao is Some {
        lema_contem_a_si(c3);
        lema_contem_mais_antes(p2, c3, c3);
        lema_contem_mais_depois(p3, c3, c4);
        lema_contem_mais_depois(p4, c3, c5);
        lema_contem_mais_depois(p5, c3, o);
    }
    if f.data_entrada is Some {
        lema_contem_a_si(c4);
        lema_contem_mais_antes(p3, c4, c4);
        lema_contem_mais_depois(p4, c4, c5);
        lema_contem_mais_depois(p5, c4, o);
    }
    if f.data_saida is Some {
        lema_contem_a_si(c5);
        lema_contem_mais_antes(p4, c5, c5);
        lema_contem_mais_depois(p5, c5, o);
    }
}

/// Appends the clause and the pattern of one filter, when it is given.
fn acrescentar_filtro(
    sql: &mut String,
    parametros: &mut Vec<Parametro>,
    filtro: &Option<String>,
    clausula: &str,
)
    requires
        marcadores(clausula@) == 1,
        marcadores(old(sql)@) == old(parametros)@.len(),
    ensures
        final(sql)@ == old(sql)@ + se_filtro(*filtro, clausula@),
        final(parametros)@.map_values(|x: Parametro| x@) == old(parametros)@.map_values(
            |x: Parametro| x@,
        ) + valor_filtro(*filtro),
        marcadores(final(sql)@) == final(parametros)@.len(),
{
    let ghost antes = parametros@.map_values(|x: Parametro| x@);
    proof {
        lema_marcadores_juncao(sql@, se_filtro(*filtro, clausula@));
    }
    match filtro {
        Some(v) => {
            sql.append(clausula);
            parametros.push(Parametro::Texto(crate::texto::juntar("%", v.as_str(), "%")));
            assert(parametros@.map_values(|x: Parametro| x@) =~= antes + valor_filtro(*filtro));
        },
        None => {
            assert(sql@ =~= sql@ + se_filtro(*filtro, clausula@));
            assert(parametros@.map_values(|x: Parametro| x@) =~= antes + valor_filtro(*filtro));
        },
    }
}

/// The query that lists the parts meeting the given filters, newest first.
/// Each clause comes with its pattern, so the placeholders and the values
/// always agree in number.
pub fn consulta_pecas_filtradas(f: &FiltrosPeca) -> (r: Comando)
    ensures
        r.sql@ == sql_consulta(*f),
        valores(r) == valores_consulta(*f),
        marcadores(r.sql@) == valores(r).len(),
        comeca_com(r.sql@, "SELECT id, codigo_pi, nome, proxima_operacao, data_entrada, lote, data_saida FROM pecas WHERE 1=1"@),
        termina_com(r.sql@, " ORDER BY id DESC"@),
        f.codigo_pi is Some ==> contem(r.sql@, " AND codigo_pi LIKE ?"@),
        f.nome is Some ==> contem(r.sql@, " AND nome LIKE ?"@),
        f.lote is Some ==> contem(r.sql@, " AND lote LIKE ?"@),
        f.proxima_operacao is Some ==> contem(r.sql@, " AND proxima_operacao LIKE ?"@),
        f.data_entrada is Some ==> contem(r.sql@, " AND data_entrada LIKE ?"@),
        f.data_saida is Some ==> contem(r.sql@, " AND data_saida LIKE ?"@),
        valores(r).len() == um_se_dado(f.codigo_pi) + um_se_dado(f.nome) + um_se_dado(f.lote)
            + um_se_dado(f.proxima_operacao) + um_se_dado(f.data_entrada) + um_se_dado(
            f.data_saida,
        ),
        f.codigo_pi matches Some(v) ==> valores(r)[0] == ValorSql::Texto("%"@ + v@ + "%"@),
        f.nome matches Some(v) ==> valores(r)[um_se_dado(f.codigo_pi)] == ValorSql::Texto("%"@ + v@ + "%"@),
        f.lote matches Some(v) ==> valores(r)[um_se_dado(f.codigo_pi) + um_se_dado(f.nome)] == ValorSql::Texto("%"@ + v@ + "%"@),
        f.proxima_operacao matches Some(v) ==> valores(r)[um_se_dado(f.codigo_pi) + um_se_dado(f.nome) + um_se_dado(f.lote)] == ValorSql::Texto("%"@ + v@ + "%"@),
        f.data_entrada matches Some(v) ==> valores(r)[um_se_dado(f.codigo_pi) + um_se_dado(f.nome) + um_se_dado(f.lote) + um_se_dado(f.proxima_operacao)] == ValorSql::Texto("%"@ + v@ + "%"@),
        f.data_saida matches Some(v) ==> valores(r)[um_se_dado(f.codigo_pi) + um_se_dado(f.nome) + um_se_dado(f.lote) + um_se_dado(f.proxima_operacao) + um_se_dado(f.data_entrada)] == ValorSql::Texto("%"@ + v@ + "%"@),
{
    let mut sql = String::from_str(
        "SELECT id, codigo_pi, nome, proxima_operacao, data_entrada, lote, data_saida FROM pecas WHERE 1=1",
    );
    let mut parametros: Vec<Parametro> = Vec::new();
    proof {
        lema_marcadores_base_consulta();
    }
    assert(parametros@.map_values(|x: Parametro| x@) =~= Seq::<ValorSql>::empty());
    assert(marcadores(" AND codigo_pi LIKE ?"@) == 1) by {
        reveal_strlit(" AND codigo_pi LIKE ?");
        reveal_with_fuel(marcadores_desde, 25);
    }
    acrescentar_filtro(&mut sql, &mut parametros, &f.codigo_pi, " AND codigo_pi LIKE ?");
    assert(marcadores(" AND nome LIKE ?"@) == 1) by {
        reveal_strlit(" AND nome LIKE ?");
        reveal_with_fuel(marcadores_desde, 25);
    }
    acrescentar_filtro(&mut sql, &mut parametros, &f.nome, " AND nome LIKE ?");
    assert(marcadores(" AND lote LIKE ?"@) == 1) by {
        reveal_strlit(" AND lote LIKE ?");
        reveal_with_fuel(marcadores_desde, 25);
    }
    acrescentar_filtro(&mut sql, &mut parametros, &f.lote, " AND lote LIKE ?");
    assert(marcadores(" AND proxima_operacao LIKE ?"@) == 1) by {
        reveal_strlit(" AND proxima_operacao LIKE ?");
        reveal_with_fuel(marcadores_desde, 35);
    }
    acrescentar_filtro(
        &mut sql,
        &mut parametros,
        &f.proxima_operacao,
        " AND proxima_operacao LIKE ?",
    );
    assert(marcadores(" AND data_entrada LIKE ?"@) == 1) by {
        reveal_strlit(" AND data_entrada LIKE ?");
        reveal_with_fuel(marcadores_desde, 30);
    }
    acrescentar_filtro(&mut sql, &mut parametros, &f.data_entrada, " AND data_entrada LIKE ?");
    assert(marcadores(" AND data_saida LIKE ?"@) == 1) by {
        reveal_strlit(" AND data_saida LIKE ?");
        reveal_with_fuel(marcadores_desde, 30);
    }
    acrescentar_filtro(&mut sql, &mut parametros, &f.data_saida, " AND data_saida LIKE ?");
    let ghost antes = sql@;
    sql.append(" ORDER BY id DESC");
    proof {
        assert(marcadores(sql_ordem_consulta()) == 0) by {
            reveal_strlit(" ORDER BY id DESC");
            reveal_with_fuel(marcadores_desde, 20);
        }
        lema_marcadores_juncao(antes, sql_ordem_consulta());
        assert(parametros@.map_values(|x: Parametro| x@) =~= valores_consulta(*f));
        lema_padroes_da_consulta(*f);
        lema_texto_da_consulta(*f);
    }
    Comando { sql, parametros }
}

/// The part that one row of the listing holds, its columns in the order of the
/// `SELECT`; a row whose step is no step's name is refused with the message of
/// that name.
pub open spec fn peca_da_linha(
    id: i32,
    codigo_pi: String,
    nome: String,
    proxima_operacao: Seq<char>,
    data_entrada: String,
    lote: String,
    data_saida: Option<String>,
) -> Result<Peca, Seq<char>> {
    match operacao_de_texto(proxima_operacao) {
        Ok(op) => Ok(
            Peca { id, codigo_pi, nome, proxima_operacao: op, data_entrada, lote, data_saida },
        ),
        Err(e) => Err(e),
    }
}

/// A row of the listing gives the part whose every field is the column of the
/// same name (the id, PI code, name, entry date, batch and exit date unchanged,
/// the step the one whose name the row holds), or, when the row holds no
/// step's name, the message that quotes it.
pub proof fn lema_campos_da_linha(
    id: i32,
    codigo_pi: String,
    nome: String,
    proxima_operacao: Seq<char>,
    data_entrada: String,
    lote: String,
    data_saida: Option<String>,
)
    ensures
        peca_da_linha(id, codigo_pi, nome, proxima_operacao, data_entrada, lote, data_saida) matches Ok(p) ==> {
            &&& p.id == id
            &&& p.codigo_pi == codigo_pi
            &&& p.nome == nome
            &&& nome_operacao(p.proxima_operacao) == proxima_operacao
            &&& p.data_entrada == data_entrada
            &&& p.lote == lote
            &&& p.data_saida == data_saida
        },
        peca_da_linha(id, codigo_pi, nome, proxima_operacao, data_entrada, lote, data_saida) matches Err(e) ==> e
            == "Operação desconhecida: "@ + proxima_operacao,
        peca_da_linha(id, codigo_pi, nome, proxima_operacao, data_entrada, lote, data_saida) is Ok
            <==> operacao_de_texto(proxima_operacao) is Ok,
{
    crate::models::lema_texto_de_operacao(proxima_operacao);
    if let Ok(op) = operacao_de_texto(proxima_operacao) {
        crate::models::lema_texto_aceito_eh_nome(proxima_operacao, op);
    }
}

/// Builds the part that a row of the listing holds.
pub fn peca_de_linha(
    id: i32,
    codigo_pi: String,
    nome: String,
    proxima_operacao: &str,
    data_entrada: String,
    lote: String,
    data_saida: Option<String>,
) -> (r: Result<Peca, String>)
    ensures
        visao_resultado(r) == peca_da_linha(
            id,
            codigo_pi,
            nome,
            proxima_operacao@,
            data_entrada,
            lote,
            data_saida,
        ),
        r matches Ok(p) ==> {
            &&& p.id == id
            &&& p.codigo_pi == codigo_pi
            &&& p.nome == nome
            &&& nome_operacao(p.proxima_operacao) == proxima_operacao@
            &&& p.data_entrada == data_entrada
            &&& p.lote == lote
            &&& p.data_saida == data_saida
        },
        r matches Err(e) ==> e@ == "Operação desconhecida: "@ + proxima_operacao@,
{
    proof {
        lema_campos_da_linha(
            id,
            codigo_pi,
            nome,
            proxima_operacao@,
            data_entrada,
            lote,
            data_saida,
        );
    }
    match ProximaOperacao::de_texto(proxima_operacao) {
        Ok(op) => Ok(Peca { id, codigo_pi, nome, proxima_operacao: op, data_entrada, lote, data_saida }),
        Err(e) => Err(e),
    }
}

/// What the insert stores of a part, read back as a row of the listing, is that
/// same part: each text column holds the field unchanged, and the step's stored
/// name reads back as the step.
pub proof fn lema_gravar_e_ler_peca(p: Peca)
    ensures
        valores_colunas(p)[2] == ValorSql::Texto(nome_operacao(p.proxima_operacao)),
        peca_da_linha(
            p.id,
            p.codigo_pi,
            p.nome,
            nome_operacao(p.proxima_operacao),
            p.data_entrada,
            p.lote,
            p.data_saida,
        ) == Ok::<Peca, Seq<char>>(p),
{
    crate::models::lema_nome_volta_a_operacao(p.proxima_operacao);
}

} // verus!
