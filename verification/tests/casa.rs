use rust_backend::clima::{ler_linha_clima, selecionar_linha, trocar_virgulas, ErroLeitura};
use rust_backend::dispositivos::{AutomacaoResidencial, ChangeMode, UpdateData};
use rust_backend::estado::{device_is_locked, AppState, CondicaoClima};
use rust_backend::relogio::Clock;
use rust_backend::travas::{LockDevice, UpdateLockData};

fn vazio() -> UpdateData {
    UpdateData {
        luz: None,
        tranca: None,
        alarme: None,
        janelas: None,
        robo: None,
        cafeteira: None,
        ar_condicionado: None,
        aquecedor: None,
        caixa_de_som: None,
        televisao: None,
    }
}

fn travas_vazias() -> UpdateLockData {
    UpdateLockData {
        lock_luz: None,
        lock_tranca: None,
        lock_alarme: None,
        lock_janelas: None,
        lock_robo: None,
        lock_cafeteira: None,
        lock_ar_condicionado: None,
        lock_aquecedor: None,
        lock_caixa_de_som: None,
        lock_televisao: None,
    }
}

fn modo(m: &str) -> ChangeMode {
    ChangeMode { modo: m.to_string() }
}

fn estado() -> AppState {
    AppState::new("1234".to_string(), "master1234".to_string())
}

fn relatorio(pares: &[(&str, bool)]) -> Vec<(String, bool)> {
    pares.iter().map(|(n, v)| (n.to_string(), *v)).collect()
}

#[test]
fn relogio_comeca_ao_meio_dia() {
    assert_eq!(Clock::new().hour, 12);
}

#[test]
fn relogio_avanca_e_volta_a_zero() {
    let mut c = Clock::new();
    c.increment_hour();
    assert_eq!(c.hour, 13);
    let mut c = Clock { hour: 22 };
    c.increment_hour();
    assert_eq!(c.hour, 23);
    c.increment_hour();
    assert_eq!(c.hour, 0);
}

#[test]
fn relogio_volta_completa_em_24_horas() {
    for h in 0..24 {
        let mut c = Clock { hour: h };
        for _ in 0..24 {
            c.increment_hour();
        }
        assert_eq!(c.hour, h);
    }
}

#[test]
fn automacao_estado_inicial() {
    let a = AutomacaoResidencial::new();
    assert_eq!(
        a.return_data(),
        relatorio(&[
            ("luz", false),
            ("tranca", true),
            ("alarme", true),
            ("janelas", false),
            ("robo", false),
            ("cafeteira", false),
            ("ar_condicionado", false),
            ("aquecedor", false),
            ("caixa_de_som", false),
            ("televisao", false),
        ])
    );
}

#[test]
fn atualizacao_parcial() {
    let mut a = AutomacaoResidencial::new();
    let mut u = vazio();
    u.luz = Some(true);
    u.tranca = Some(false);
    u.televisao = Some(true);
    a.update(u);
    let mut esperado = AutomacaoResidencial::new();
    esperado.luz = true;
    esperado.tranca = false;
    esperado.televisao = true;
    assert_eq!(a, esperado);
}

#[test]
fn atualizacao_vazia_nao_muda_nada() {
    let mut a = AutomacaoResidencial::new();
    a.update(vazio());
    assert_eq!(a, AutomacaoResidencial::new());
}

#[test]
fn atualizacao_idempotente() {
    let mut u = vazio();
    u.robo = Some(true);
    u.alarme = Some(false);
    let mut a = AutomacaoResidencial::new();
    a.update(u);
    let uma_vez = a;
    a.update(u);
    assert_eq!(a, uma_vez);
}

#[test]
fn acesso_garantido_abre_a_casa() {
    let mut a = AutomacaoResidencial::new();
    a.robo = true;
    a.acesso_garantido();
    assert!(a.luz && !a.tranca && !a.alarme && a.robo);
}

#[test]
fn fora_de_casa_estado_seguro() {
    let mut a = AutomacaoResidencial::new();
    a.update(UpdateData {
        luz: Some(true),
        tranca: Some(false),
        alarme: Some(false),
        janelas: Some(false),
        robo: Some(true),
        cafeteira: Some(true),
        ar_condicionado: Some(true),
        aquecedor: Some(true),
        caixa_de_som: Some(true),
        televisao: Some(true),
    });
    a.fora_de_casa();
    let mut esperado = AutomacaoResidencial::new();
    esperado.janelas = true;
    assert_eq!(a, esperado);
}

#[test]
fn termostato_frio_ameno_quente() {
    let mut a = AutomacaoResidencial::new();
    // 15 degrees: below the minimum
    a.termostato(true, false, true);
    assert!(!a.ar_condicionado && a.aquecedor);
    // 20 degrees: inside the band
    a.termostato(false, true, true);
    assert!(!a.ar_condicionado && !a.aquecedor);
    // 30 degrees: above the maximum
    a.termostato(false, true, false);
    assert!(a.ar_condicionado && !a.aquecedor);
    // exactly 18 degrees: neither below nor above the minimum
    a.termostato(false, false, true);
    assert!(a.ar_condicionado && !a.aquecedor);
}

#[test]
fn chuva_forte_fecha_janelas() {
    let mut a = AutomacaoResidencial::new();
    a.precipitacao(false);
    assert!(!a.janelas);
    a.precipitacao(true);
    assert!(a.janelas);
    a.precipitacao(false);
    assert!(a.janelas);
}

#[test]
fn rotina_da_noite() {
    for h in [22, 23, 0, 3, 5] {
        let mut a = AutomacaoResidencial::new();
        a.luz = true;
        a.caixa_de_som = true;
        a.televisao = true;
        a.robo = true;
        a.dormindo_ou_acordado(h);
        assert!(!a.luz && a.janelas && !a.caixa_de_som && !a.televisao && !a.robo);
    }
}

#[test]
fn rotina_da_manha() {
    let mut a = AutomacaoResidencial::new();
    a.janelas = true;
    a.dormindo_ou_acordado(6);
    assert!(a.luz && !a.janelas && a.cafeteira);
    a.dormindo_ou_acordado(7);
    assert!(a.luz && !a.cafeteira);
    let antes = a;
    a.dormindo_ou_acordado(12);
    assert_eq!(a, antes);
}

#[test]
fn modos_da_casa() {
    let base = AutomacaoResidencial::new();
    let mut a = base;
    a.change_mode(modo("dormir"));
    let mut noite = base;
    noite.dormindo_ou_acordado(23);
    assert_eq!(a, noite);

    let mut a = base;
    a.change_mode(modo("acordar"));
    let mut manha = base;
    manha.dormindo_ou_acordado(6);
    assert_eq!(a, manha);

    let mut a = base;
    a.change_mode(modo("limpar"));
    assert!(a.robo);

    let mut a = base;
    a.change_mode(modo("destrancar"));
    assert!(!a.tranca && !a.alarme);
    a.change_mode(modo("trancar"));
    assert!(a.tranca && a.alarme);

    let mut a = base;
    a.change_mode(modo("filme"));
    assert!(a.televisao && a.janelas && a.luz);

    let mut a = base;
    a.change_mode(modo("musica"));
    assert!(a.caixa_de_som && a.luz);
}

#[test]
fn modo_desconhecido_nao_muda_nada() {
    let mut a = AutomacaoResidencial::new();
    a.change_mode(modo("festa"));
    a.change_mode(modo("Dormir"));
    a.change_mode(modo(""));
    assert_eq!(a, AutomacaoResidencial::new());
}

#[test]
fn travas_comecam_livres() {
    let l = LockDevice::new();
    assert!(l.return_data().iter().all(|(_, v)| !*v));
    assert_eq!(l.return_data().len(), 10);
    assert_eq!(l.return_data()[6].0, "ar_condicionado");
}

#[test]
fn travas_atualizadas() {
    let mut l = LockDevice::new();
    let mut u = travas_vazias();
    u.lock_tranca = Some(true);
    u.lock_televisao = Some(true);
    l.update(u);
    assert!(l.lock_tranca && l.lock_televisao && !l.lock_luz);
    assert_eq!(l.return_data()[1], ("tranca".to_string(), true));
}

#[test]
fn consulta_de_trava_olha_todos_os_dispositivos() {
    let mut l = LockDevice::new();
    l.lock_tranca = true;
    let mut u = vazio();
    u.tranca = Some(true);
    assert_eq!(l.device_is_locked(u), Ok(true));
    u.luz = Some(false);
    assert_eq!(l.device_is_locked(u), Ok(true));
    u.tranca = None;
    assert_eq!(l.device_is_locked(u), Ok(false));
    assert_eq!(l.device_is_locked(vazio()), Err("Item não fornecido".to_string()));
}

#[test]
fn registro_e_login_com_nova_senha() {
    let mut s = estado();
    assert!(!s.login(&"abc".to_string()));
    assert!(s.register(&"master1234".to_string(), "abc".to_string()));
    assert!(s.login(&"abc".to_string()));
    assert!(s.authenticated);
    assert!(s.automacao_residencial.luz && !s.automacao_residencial.tranca);
}

#[test]
fn registro_com_senha_mestra_errada() {
    let mut s = estado();
    assert!(!s.register(&"1234".to_string(), "abc".to_string()));
    assert!(!s.login(&"abc".to_string()));
    assert!(!s.authenticated);
    assert_eq!(s.automacao_residencial, AutomacaoResidencial::new());
}

#[test]
fn registro_repetido() {
    let mut s = estado();
    assert!(s.register(&"master1234".to_string(), "abc".to_string()));
    assert!(s.register(&"master1234".to_string(), "abc".to_string()));
    assert!(s.login(&"abc".to_string()));
    assert!(s.users.contains(&"abc".to_string()));
}

#[test]
fn login_com_senha_da_casa() {
    let mut s = estado();
    assert!(s.login(&"1234".to_string()));
    assert!(s.authenticated);
}

#[test]
fn logout() {
    let mut s = estado();
    assert!(!s.logout(false));
    assert!(s.login(&"1234".to_string()));
    assert!(!s.logout(false));
    assert!(s.authenticated);
    assert!(s.logout(true));
    assert!(!s.authenticated);
    let mut vazia = AutomacaoResidencial::new();
    vazia.fora_de_casa();
    assert_eq!(s.automacao_residencial, vazia);
}

#[test]
fn atualizacao_respeita_trava() {
    let mut s = estado();
    let mut t = travas_vazias();
    t.lock_luz = Some(true);
    s.lock_device(t);
    let mut u = vazio();
    u.luz = Some(true);
    assert!(device_is_locked(&s, u));
    let r = s.update_data(u);
    assert!(!s.automacao_residencial.luz);
    assert_eq!(r[0], ("luz".to_string(), false));
}

#[test]
fn atualizacao_sem_dispositivo_e_recusada() {
    let mut s = estado();
    assert!(device_is_locked(&s, vazio()));
    s.update_data(vazio());
    assert_eq!(s.automacao_residencial, AutomacaoResidencial::new());
}

#[test]
fn atualizacao_liberada() {
    let mut s = estado();
    let mut u = vazio();
    u.cafeteira = Some(true);
    assert!(!device_is_locked(&s, u));
    let r = s.update_data(u);
    assert!(s.automacao_residencial.cafeteira);
    assert_eq!(r[5], ("cafeteira".to_string(), true));
}

#[test]
fn dispositivo_travado_nunca_muda() {
    let mut s = estado();
    s.lock_devices.lock_tranca = true;
    let mut u = vazio();
    u.luz = Some(true);
    u.tranca = Some(false);
    assert!(device_is_locked(&s, u));
    s.update_data(u);
    assert!(!s.automacao_residencial.luz && s.automacao_residencial.tranca);
    assert_eq!(s.automacao_residencial, AutomacaoResidencial::new());
}

#[test]
fn trava_retorna_relatorio_de_travas() {
    let mut s = estado();
    let mut t = travas_vazias();
    t.lock_robo = Some(true);
    let r = s.lock_device(t);
    assert_eq!(r[4], ("robo".to_string(), true));
    assert_eq!(s.automacao_residencial, AutomacaoResidencial::new());
}

#[test]
fn modo_pelo_estado() {
    let mut s = estado();
    let r = s.set_mode(modo("filme"));
    assert_eq!(r[9], ("televisao".to_string(), true));
    assert!(s.automacao_residencial.televisao);
}

#[test]
fn passo_periodico_sem_sessao() {
    let mut s = estado();
    let clima = CondicaoClima {
        chuva_forte: true,
        abaixo_do_minimo: true,
        acima_do_minimo: false,
        abaixo_do_maximo: true,
    };
    s.passo_periodico(clima);
    assert_eq!(s.clock_atual.hour, 13);
    assert!(s.automacao_residencial.janelas);
    assert!(!s.automacao_residencial.aquecedor);
}

#[test]
fn passo_periodico_com_sessao() {
    let mut s = estado();
    assert!(s.login(&"1234".to_string()));
    s.clock_atual = Clock { hour: 5 };
    let clima = CondicaoClima {
        chuva_forte: true,
        abaixo_do_minimo: true,
        acima_do_minimo: false,
        abaixo_do_maximo: true,
    };
    s.passo_periodico(clima);
    assert_eq!(s.clock_atual.hour, 6);
    assert!(s.automacao_residencial.aquecedor && !s.automacao_residencial.ar_condicionado);
    // the morning routine at six opens the windows again
    assert!(!s.automacao_residencial.janelas && s.automacao_residencial.cafeteira);
}

#[test]
fn troca_de_virgulas() {
    assert_eq!(trocar_virgulas(&b"20,1".to_vec()), b"20.1".to_vec());
    assert_eq!(trocar_virgulas(&b",,a,".to_vec()), b"..a.".to_vec());
    assert_eq!(trocar_virgulas(&Vec::new()), Vec::<u8>::new());
}

const CSV: &[u8] = b"Data;Hora;Precipitacao;Temperatura\n\
2023/01/01;0000 UTC;0,0;20,1\n\
2023/01/01;0100 UTC; 2,4 ;19,8\n";

#[test]
fn leitura_da_primeira_linha() {
    let r = ler_linha_clima(CSV, 1).unwrap().unwrap();
    assert_eq!(r.precipitacao, b"0.0".to_vec());
    assert_eq!(r.temperatura, b"20.1".to_vec());
    assert_eq!(r.proximo_contador, 2);
}

#[test]
fn leitura_apara_espacos() {
    let r = ler_linha_clima(CSV, 2).unwrap().unwrap();
    assert_eq!(r.precipitacao, b"2.4".to_vec());
    assert_eq!(r.temperatura, b"19.8".to_vec());
    assert_eq!(r.proximo_contador, 3);
}

#[test]
fn leitura_alem_do_fim() {
    assert_eq!(ler_linha_clima(CSV, 3), Ok(None));
    assert_eq!(ler_linha_clima(CSV, 0), Ok(None));
    assert_eq!(ler_linha_clima(CSV, -5), Ok(None));
}

#[test]
fn leitura_com_campo_faltando() {
    let csv = b"a;b;c\n1;2;3,5\n";
    assert_eq!(ler_linha_clima(csv, 1), Err(ErroLeitura::CampoNaoEncontrado));
}

#[test]
fn leitura_com_linha_invalida_antes() {
    let csv = b"a;b;c;d\n1;2\n1;2;3;4\n";
    assert_eq!(ler_linha_clima(csv, 2), Err(ErroLeitura::Registro));
    assert_eq!(ler_linha_clima(csv, 5), Err(ErroLeitura::Registro));
}

#[test]
fn leitura_com_linha_invalida_depois() {
    let csv = b"a;b;c;d\n1;2;3;4\n1;2\n";
    let r = ler_linha_clima(csv, 1).unwrap().unwrap();
    assert_eq!(r.temperatura, b"4".to_vec());
}

#[test]
fn selecao_de_linha_sobre_registros() {
    let regs = vec![
        Some(vec![b"x".to_vec(), b"y".to_vec(), b"1,5".to_vec(), b"22,0".to_vec()]),
        None,
        Some(vec![b"x".to_vec()]),
    ];
    let r = selecionar_linha(&regs, 1).unwrap().unwrap();
    assert_eq!(r.precipitacao, b"1.5".to_vec());
    assert_eq!(r.temperatura, b"22.0".to_vec());
    assert_eq!(selecionar_linha(&regs, 2), Err(ErroLeitura::Registro));
    assert_eq!(selecionar_linha(&regs, 3), Err(ErroLeitura::Registro));
    let regs2 = vec![Some(vec![b"x".to_vec()])];
    assert_eq!(selecionar_linha(&regs2, 1), Err(ErroLeitura::CampoNaoEncontrado));
    assert_eq!(selecionar_linha(&regs2, 2), Ok(None));
}
